//! Terrain classification of a single map cell.

use vstd::prelude::*;

verus! {

/// What a cell of the map is made of, as far as movement is concerned.
#[derive(Clone, Copy, Debug, PartialEq, Eq, Structural)]
pub enum Field {
    /// Units may enter the cell.
    Passable,
    /// Units may not enter the cell.
    Impassable,
}

impl Default for Field {
    /// A cell is passable unless stated otherwise.
    fn default() -> (field: Self)
        ensures
            field == Field::Passable,
    {
        Field::Passable
    }
}

} // verus!
