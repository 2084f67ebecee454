//! Allegiance of units: the side a unit fights on.

use vstd::prelude::*;

verus! {

/// Marker for enemy units.
#[derive(Clone, Copy, Debug, Default, PartialEq, Eq, Structural)]
pub struct Enemy;

/// Marker for allied units.
#[derive(Clone, Copy, Debug, Default, PartialEq, Eq, Structural)]
pub struct Ally;

/// The side a unit fights on, as a value.
#[derive(Clone, Copy, Debug, PartialEq, Eq, Structural)]
pub enum Allegiance {
    Ally,
    Enemy,
}

} // verus!
