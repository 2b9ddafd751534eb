use vstd::prelude::*;

use crate::position::Position;

verus! {

/// One painted cell: where it is and its CSS color string.
#[derive(Clone, Debug, PartialEq)]
pub struct Pixel {
    pub color: String,
    pub position: Position,
}

} // verus!
