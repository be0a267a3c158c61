//! The player: a position with a circular hit area around it.

use vstd::prelude::*;
use crate::entity::Entity;
use crate::position::{
    lemma_distance_bounds, lemma_distance_symmetric, rounded_distance, Position,
};
use crate::shape::{fits_i16, low_i16, to_i16, wrap_i16, Color, FilledCircle};

verus! {

/// Whether two circles overlap: the rounded distance between their centres
/// is less than the sum of their radii.
pub open spec fn circles_overlap(
    center_a: (int, int),
    radius_a: int,
    center_b: (int, int),
    radius_b: int,
) -> bool {
    rounded_distance(center_a, center_b) < radius_a + radius_b
}

/// Which of two circles is asked about the other does not matter.
pub proof fn lemma_overlap_symmetric(
    center_a: (int, int),
    radius_a: int,
    center_b: (int, int),
    radius_b: int,
)
    ensures
        circles_overlap(center_a, radius_a, center_b, radius_b) == circles_overlap(
            center_b,
            radius_b,
            center_a,
            radius_a,
        ),
{
    lemma_distance_symmetric(center_a, center_b);
}

/// Circles whose radii sum to nothing, or to less, never overlap.
pub proof fn lemma_no_overlap_without_radius(
    center_a: (int, int),
    radius_a: int,
    center_b: (int, int),
    radius_b: int,
)
    requires
        radius_a + radius_b <= 0,
    ensures
        !circles_overlap(center_a, radius_a, center_b, radius_b),
{
    lemma_distance_bounds(center_a, center_b);
}

/// The player. Its hit area is a circle of radius `collision_size` around
/// its position; it is painted twice as large.
#[derive(Debug)]
pub struct Player {
    collision_size: i32,
    display_size: i32,
    position: Position,
}

/// What a `Player` stands for in contracts.
pub struct PlayerView {
    pub collision_size: int,
    pub position: (int, int),
}

impl View for Player {
    type V = PlayerView;

    closed spec fn view(&self) -> PlayerView {
        PlayerView { collision_size: self.collision_size as int, position: self.position@ }
    }
}

impl Player {
    #[verifier::type_invariant]
    spec fn display_is_twice_collision(self) -> bool {
        self.display_size == 2 * self.collision_size
    }

    /// A player at `position` with a hit area of radius `collision_size`.
    ///
    /// The painted radius, twice `collision_size`, has to be an `i32`.
    pub fn new(collision_size: i32, position: Position) -> (player: Player)
        requires
            i32::MIN <= 2 * collision_size <= i32::MAX,
        ensures
            player@ == (PlayerView { collision_size: collision_size as int, position: position@ }),
    {
        Player { collision_size, display_size: collision_size * 2, position }
    }

    /// Whether the player's hit area overlaps that of `other`: the answer
    /// of `overlaps` for a position and a radius that `other` gives.
    pub fn is_hit<T: Entity>(&self, other: T) -> (hit: bool)
        ensures
            (exists|position: Position, collision_size: i32|
                #[trigger] call_ensures(T::position, (&other,), position)
                    && #[trigger] call_ensures(T::collision_size, (&other,), collision_size)
                    && hit == circles_overlap(
                    self@.position,
                    self@.collision_size,
                    position@,
                    collision_size as int,
                )),
    {
        let position = other.position();
        let collision_size = other.collision_size();
        self.overlaps(position, collision_size)
    }

    /// Whether the player's hit area overlaps a circle of radius
    /// `collision_size` around `position`.
    pub fn overlaps(&self, position: Position, collision_size: i32) -> (hit: bool)
        ensures
            hit == circles_overlap(
                self@.position,
                self@.collision_size,
                position@,
                collision_size as int,
            ),
    {
        let distance = self.position.exact_distance(position);
        let reach: i64 = self.collision_size as i64 + collision_size as i64;
        (distance as i128) < (reach as i128)
    }

    /// The circle that shows the player: black, around its position, with
    /// twice the radius of its hit area, of which the renderer gets the low
    /// sixteen bits. There is none where a coordinate is no `i16`.
    pub fn circle(&self) -> (shown: Option<FilledCircle>)
        ensures
            shown == if fits_i16(self@.position.0) && fits_i16(self@.position.1) {
                Some(
                    FilledCircle {
                        x: self@.position.0 as i16,
                        y: self@.position.1 as i16,
                        radius: wrap_i16(2 * self@.collision_size) as i16,
                        color: Color::Black,
                    },
                )
            } else {
                None
            },
    {
        proof {
            use_type_invariant(self);
        }
        let (x, y) = self.position.aquire();
        match (to_i16(x), to_i16(y)) {
            (Some(x), Some(y)) => Some(
                FilledCircle { x, y, radius: low_i16(self.display_size), color: Color::Black },
            ),
            _ => None,
        }
    }
}

} // verus!
