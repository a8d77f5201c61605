//! Depth test comparison and depth write configuration.

use vstd::prelude::*;

verus! {

/// Comparison used by the depth test between an incoming fragment and the stored depth.
#[derive(Clone, Copy, Debug, PartialEq, Eq, Structural)]
pub enum DepthComparison {
    Never,
    Always,
    Equal,
    NotEqual,
    Less,
    LessOrEqual,
    Greater,
    GreaterOrEqual,
}

/// Whether fragments that pass the depth test write their depth.
#[derive(Clone, Copy, Debug, PartialEq, Eq, Structural)]
pub enum DepthWrite {
    On,
    Off,
}

} // verus!
