//! What the player can collide with.

use vstd::prelude::*;
use crate::position::Position;

verus! {

/// Something with a place on the screen and a circular hit area.
///
/// Whoever implements it decides what the two methods return: nothing is
/// promised of them here.
pub trait Entity {
    /// The centre of the hit area.
    fn position(&self) -> Position;

    /// The radius of the hit area.
    fn collision_size(&self) -> i32;
}

/// The kinds of entity.
#[derive(Debug)]
pub enum Type {
    Enemy,
}

} // verus!
