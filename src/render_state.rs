//! GPU render state.
//!
//! Such a state controls how the GPU must operate some fixed pipeline functionality, such as
//! the blending, depth test or face culling operations.

use vstd::prelude::*;

use crate::blending::{Blending, BlendingMode};
use crate::depth_test::{DepthComparison, DepthWrite};
use crate::face_culling::FaceCulling;

verus! {

/// GPU render state.
///
/// Get a default value with `RenderState::default` and set the operations wanted with the
/// various `RenderState::set_*` methods. Each setter returns a new state in which exactly one
/// field differs.
#[derive(Clone, Copy, Debug, PartialEq, Eq, Structural)]
pub struct RenderState {
    /// Blending configuration.
    pub blending: Option<BlendingMode>,
    /// Depth test configuration.
    pub depth_test: Option<DepthComparison>,
    /// Depth write configuration.
    pub depth_write: DepthWrite,
    /// Face culling configuration.
    pub face_culling: Option<FaceCulling>,
}

/// The blending mode that a plain blending configuration stands for.
pub open spec fn combined_of(blending: Option<Blending>) -> Option<BlendingMode> {
    match blending {
        Some(b) => Some(BlendingMode::Combined(b)),
        None => None,
    }
}

impl RenderState {
    /// Override the blending configuration.
    pub fn set_blending(self, blending: Option<Blending>) -> (r: Self)
        ensures
            r.blending == combined_of(blending),
            r.depth_test == self.depth_test,
            r.depth_write == self.depth_write,
            r.face_culling == self.face_culling,
    {
        let mode = match blending {
            Some(b) => Some(BlendingMode::Combined(b)),
            None => None,
        };
        RenderState { blending: mode, ..self }
    }

    /// Override the blending configuration with one blending for the color channels and
    /// another for the alpha channel.
    pub fn set_blending_separate(self, blending_rgb: Blending, blending_alpha: Blending) -> (r:
        Self)
        ensures
            r.blending == Some(BlendingMode::Separate { rgb: blending_rgb, alpha: blending_alpha }),
            r.depth_test == self.depth_test,
            r.depth_write == self.depth_write,
            r.face_culling == self.face_culling,
    {
        RenderState {
            blending: Some(BlendingMode::Separate { rgb: blending_rgb, alpha: blending_alpha }),
            ..self
        }
    }

    /// Blending configuration.
    pub fn blending(&self) -> (r: Option<BlendingMode>)
        ensures
            r == self.blending,
    {
        self.blending
    }

    /// Override the depth test configuration.
    pub fn set_depth_test(self, depth_test: Option<DepthComparison>) -> (r: Self)
        ensures
            r.blending == self.blending,
            r.depth_test == depth_test,
            r.depth_write == self.depth_write,
            r.face_culling == self.face_culling,
    {
        RenderState { depth_test, ..self }
    }

    /// Depth test configuration.
    pub fn depth_test(&self) -> (r: Option<DepthComparison>)
        ensures
            r == self.depth_test,
    {
        self.depth_test
    }

    /// Override the depth write configuration.
    pub fn set_depth_write(self, depth_write: DepthWrite) -> (r: Self)
        ensures
            r.blending == self.blending,
            r.depth_test == self.depth_test,
            r.depth_write == depth_write,
            r.face_culling == self.face_culling,
    {
        RenderState { depth_write, ..self }
    }

    /// Depth write configuration.
    pub fn depth_write(&self) -> (r: DepthWrite)
        ensures
            r == self.depth_write,
    {
        self.depth_write
    }

    /// Override the face culling configuration.
    pub fn set_face_culling(self, face_culling: Option<FaceCulling>) -> (r: Self)
        ensures
            r.blending == self.blending,
            r.depth_test == self.depth_test,
            r.depth_write == self.depth_write,
            r.face_culling == face_culling,
    {
        RenderState { face_culling, ..self }
    }

    /// Face culling configuration.
    pub fn face_culling(&self) -> (r: Option<FaceCulling>)
        ensures
            r == self.face_culling,
    {
        self.face_culling
    }
}

impl Default for RenderState {
    /// The default state: no blending, depth test with `Less`, depth write on, no face
    /// culling.
    fn default() -> (r: Self)
        ensures
            r.blending == None::<BlendingMode>,
            r.depth_test == Some(DepthComparison::Less),
            r.depth_write == DepthWrite::On,
            r.face_culling == None::<FaceCulling>,
    {
        RenderState {
            blending: None,
            depth_test: Some(DepthComparison::Less),
            depth_write: DepthWrite::On,
            face_culling: None,
        }
    }
}

} // verus!
