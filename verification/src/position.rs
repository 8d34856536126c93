//! Points in the source text.

use vstd::prelude::*;

verus! {

/// A single point in the source text.
///
/// `index` is the absolute offset of the point, counted from zero; `line` and
/// `column` are counted from one.
#[derive(Clone, Copy, Debug, PartialEq, Eq, Structural)]
pub struct Position {
    pub index: usize,
    pub line: usize,
    pub column: usize,
}

} // verus!
