//! Face culling configuration.

use vstd::prelude::*;

verus! {

/// Winding order that identifies front faces.
#[derive(Clone, Copy, Debug, PartialEq, Eq, Structural)]
pub enum FaceCullingOrder {
    CW,
    CCW,
}

/// Which faces are culled.
#[derive(Clone, Copy, Debug, PartialEq, Eq, Structural)]
pub enum FaceCullingMode {
    Front,
    Back,
    Both,
}

/// Face culling: the front-face winding order and the faces to discard.
#[derive(Clone, Copy, Debug, PartialEq, Eq, Structural)]
pub struct FaceCulling {
    pub order: FaceCullingOrder,
    pub mode: FaceCullingMode,
}

impl FaceCulling {
    /// Create a face culling configuration.
    pub fn new(order: FaceCullingOrder, mode: FaceCullingMode) -> (r: Self)
        ensures
            r.order == order,
            r.mode == mode,
    {
        FaceCulling { order, mode }
    }
}

} // verus!
