//! The device calls that executing a pipeline issues, and the device's blending state.
//!
//! A pipeline does not talk to the device itself: it yields a sequence of `DeviceCall`
//! values, in the order in which they must be issued. The caller performs them against its
//! context. This keeps the device an explicit value and lets the order be stated exactly.

use vstd::prelude::*;

verus! {

/// An OpenGL enumeration value.
pub type GLenum = u32;

/// `GL_ZERO`.
pub const ZERO: GLenum = 0;
/// `GL_ONE`.
pub const ONE: GLenum = 1;
/// `GL_SRC_COLOR`.
pub const SRC_COLOR: GLenum = 0x0300;
/// `GL_ONE_MINUS_SRC_COLOR`.
pub const ONE_MINUS_SRC_COLOR: GLenum = 0x0301;
/// `GL_SRC_ALPHA`.
pub const SRC_ALPHA: GLenum = 0x0302;
/// `GL_ONE_MINUS_SRC_ALPHA`.
pub const ONE_MINUS_SRC_ALPHA: GLenum = 0x0303;
/// `GL_DST_ALPHA`.
pub const DST_ALPHA: GLenum = 0x0304;
/// `GL_ONE_MINUS_DST_ALPHA`.
pub const ONE_MINUS_DST_ALPHA: GLenum = 0x0305;
/// `GL_DST_COLOR`.
pub const DST_COLOR: GLenum = 0x0306;
/// `GL_ONE_MINUS_DST_COLOR`.
pub const ONE_MINUS_DST_COLOR: GLenum = 0x0307;
/// `GL_SRC_ALPHA_SATURATE`.
pub const SRC_ALPHA_SATURATE: GLenum = 0x0308;
/// `GL_FUNC_ADD`.
pub const FUNC_ADD: GLenum = 0x8006;
/// `GL_MIN`.
pub const MIN: GLenum = 0x8007;
/// `GL_MAX`.
pub const MAX: GLenum = 0x8008;
/// `GL_FUNC_SUBTRACT`.
pub const FUNC_SUBTRACT: GLenum = 0x800A;
/// `GL_FUNC_REVERSE_SUBTRACT`.
pub const FUNC_REVERSE_SUBTRACT: GLenum = 0x800B;

/// One call on the device.
///
/// Colors and sizes are carried as the bit patterns of IEEE-754 single-precision numbers
/// (`f32::to_bits`); they are handed to the device unchanged.
#[derive(Clone, Copy, Debug, PartialEq, Eq, Structural)]
pub enum DeviceCall {
    /// Make the framebuffer with this handle the render target.
    BindFramebuffer { handle: u32 },
    /// Set the viewport to `(0, 0, width, height)`.
    Viewport { width: u32, height: u32 },
    /// Set the clear color.
    ClearColor { red: u32, green: u32, blue: u32, alpha: u32 },
    /// Clear the color and depth buffers.
    ClearColorAndDepth,
    /// Select texture unit `unit` (counted from the first unit).
    ActiveTexture { unit: usize },
    /// Bind a texture to the selected unit, on the texture's own target.
    BindTexture { target: GLenum, handle: u32 },
    /// Bind a buffer to uniform-buffer binding point `index`.
    BindUniformBuffer { index: usize, handle: u32 },
    /// Invoke the update hook `hook` with the program whose handle is `program`.
    UpdateProgram { hook: usize, program: u32 },
    /// Make the program with this handle the active shader program.
    UseProgram { program: u32 },
    /// Enable blending.
    EnableBlending,
    /// Set the blending equation.
    BlendEquation { equation: GLenum },
    /// Set the source and destination blending factors.
    BlendFunc { src: GLenum, dst: GLenum },
    /// Disable blending.
    DisableBlending,
    /// Enable the depth test.
    EnableDepthTest,
    /// Disable the depth test.
    DisableDepthTest,
    /// Draw the tessellation `tess`, `instances` times, with an optional point size or line
    /// width.
    Render { tess: usize, rasterization_size: Option<u32>, instances: u32 },
}

/// The device's blending state: whether blending is on, and the equation and factors set.
#[derive(Clone, Copy, Debug, PartialEq, Eq, Structural)]
pub struct BlendState {
    pub enabled: bool,
    pub equation: GLenum,
    pub src: GLenum,
    pub dst: GLenum,
}

/// The blending state after one call.
pub open spec fn blend_step(s: BlendState, c: DeviceCall) -> BlendState {
    match c {
        DeviceCall::EnableBlending => BlendState { enabled: true, ..s },
        DeviceCall::DisableBlending => BlendState { enabled: false, ..s },
        DeviceCall::BlendEquation { equation } => BlendState { equation, ..s },
        DeviceCall::BlendFunc { src, dst } => BlendState { src, dst, ..s },
        _ => s,
    }
}

/// The blending state after a sequence of calls, issued in order from state `s`.
pub open spec fn blend_after(s: BlendState, calls: Seq<DeviceCall>) -> BlendState
    decreases calls.len(),
{
    if calls.len() == 0 {
        s
    } else {
        blend_step(blend_after(s, calls.drop_last()), calls.last())
    }
}

/// Whether a call changes the blending state.
pub open spec fn is_blend_call(c: DeviceCall) -> bool {
    match c {
        DeviceCall::EnableBlending | DeviceCall::DisableBlending | DeviceCall::BlendEquation {
            ..
        } | DeviceCall::BlendFunc { .. } => true,
        _ => false,
    }
}

/// The number of draw calls in a sequence of calls.
pub open spec fn draw_count(calls: Seq<DeviceCall>) -> nat
    decreases calls.len(),
{
    if calls.len() == 0 {
        0
    } else {
        draw_count(calls.drop_last()) + if calls.last() is Render {
            1nat
        } else {
            0nat
        }
    }
}

/// Issuing two sequences in turn leaves the blending state that the second leaves from
/// the state the first left.
pub proof fn lemma_blend_after_concat(s: BlendState, a: Seq<DeviceCall>, b: Seq<DeviceCall>)
    ensures
        blend_after(s, a + b) == blend_after(blend_after(s, a), b),
    decreases b.len(),
{
    if b.len() == 0 {
        assert(a + b =~= a);
    } else {
        lemma_blend_after_concat(s, a, b.drop_last());
        assert((a + b).drop_last() =~= a + b.drop_last());
        assert((a + b).last() == b.last());
    }
}

/// Calls that do not touch blending leave the blending state as it was.
pub proof fn lemma_blend_after_unchanged(s: BlendState, calls: Seq<DeviceCall>)
    requires
        forall|i: int| 0 <= i < calls.len() ==> !is_blend_call(#[trigger] calls[i]),
    ensures
        blend_after(s, calls) == s,
    decreases calls.len(),
{
    if calls.len() > 0 {
        let d = calls.drop_last();
        assert forall|i: int| 0 <= i < d.len() implies !is_blend_call(#[trigger] d[i]) by {
            assert(d[i] == calls[i]);
        }
        lemma_blend_after_unchanged(s, d);
        assert(!is_blend_call(calls[calls.len() - 1]));
    }
}

/// The draw calls of two sequences issued in turn add up.
pub proof fn lemma_draw_count_concat(a: Seq<DeviceCall>, b: Seq<DeviceCall>)
    ensures
        draw_count(a + b) == draw_count(a) + draw_count(b),
    decreases b.len(),
{
    if b.len() == 0 {
        assert(a + b =~= a);
    } else {
        lemma_draw_count_concat(a, b.drop_last());
        assert((a + b).drop_last() =~= a + b.drop_last());
        assert((a + b).last() == b.last());
    }
}

} // verus!
