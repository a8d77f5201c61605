//! Blending equations, factors and modes.

use vstd::prelude::*;

verus! {

/// Blending equation: how the source and destination colors are combined.
#[derive(Clone, Copy, Debug, PartialEq, Eq, Structural)]
pub enum Equation {
    /// `src * srcK + dst * dstK`
    Additive,
    /// `src * srcK - dst * dstK`
    Subtract,
    /// `dst * dstK - src * srcK`
    ReverseSubtract,
    /// Component-wise minimum of the two colors.
    Min,
    /// Component-wise maximum of the two colors.
    Max,
}

/// Blending factor applied to a source or destination color.
#[derive(Clone, Copy, Debug, PartialEq, Eq, Structural)]
pub enum Factor {
    One,
    Zero,
    SrcColor,
    SrcColorComplement,
    DestColor,
    DestColorComplement,
    SrcAlpha,
    SrcAlphaComplement,
    DstAlpha,
    DstAlphaComplement,
    SrcAlphaSaturate,
}

/// One blending configuration: an equation with its source and destination factors.
#[derive(Clone, Copy, Debug, PartialEq, Eq, Structural)]
pub struct Blending {
    pub equation: Equation,
    pub src: Factor,
    pub dst: Factor,
}

/// Blending mode: the same blending for every channel, or one for the color
/// channels and one for alpha.
#[derive(Clone, Copy, Debug, PartialEq, Eq, Structural)]
pub enum BlendingMode {
    Combined(Blending),
    Separate { rgb: Blending, alpha: Blending },
}

} // verus!
