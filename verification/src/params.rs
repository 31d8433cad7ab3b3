//! Formatting parameters attached to one formatter invocation.

use vstd::prelude::*;

verus! {

/// Which side of the content receives the fill bytes.
#[derive(Clone, Copy, PartialEq, Eq, Structural)]
pub enum Alignment {
    Left,
    Right,
}

/// Fill, alignment, minimum width and maximum content length (precision) for
/// one formatter invocation. `precision` is `None` when unbounded.
#[derive(Clone, Copy)]
pub struct Parameters {
    pub fill: u8,
    pub align: Alignment,
    pub width: usize,
    pub precision: Option<usize>,
}

/// The parameters an invocation carries when its pattern gives none: space
/// fill, left alignment, no minimum width, unbounded precision.
pub open spec fn default_params() -> Parameters {
    Parameters { fill: 32u8, align: Alignment::Left, width: 0, precision: None }
}

impl Parameters {
    /// The default parameter set, as an executable value.
    pub fn new_default() -> (r: Parameters)
        ensures
            r == default_params(),
    {
        Parameters { fill: 32u8, align: Alignment::Left, width: 0, precision: None }
    }
}

} // verus!
