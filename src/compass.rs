//! Cardinal and ordinal directions, as the `direction` crate defines them,
//! and the grid offsets that they stand for.
use vstd::prelude::*;

use direction::{CardinalDirection, OrdinalDirection};
use grid_2d::ICoord;

verus! {

#[verifier::external_type_specification]
pub struct ExCardinalDirection(CardinalDirection);

#[verifier::external_type_specification]
pub struct ExOrdinalDirection(OrdinalDirection);

#[verifier::external_type_specification]
pub struct ExICoord(ICoord);

/// The direction a quarter turn clockwise from `d`.
pub open spec fn right90_of(d: CardinalDirection) -> CardinalDirection {
    match d {
        CardinalDirection::North => CardinalDirection::East,
        CardinalDirection::East => CardinalDirection::South,
        CardinalDirection::South => CardinalDirection::West,
        CardinalDirection::West => CardinalDirection::North,
    }
}

/// The direction a quarter turn counter-clockwise from `d`.
pub open spec fn left90_of(d: CardinalDirection) -> CardinalDirection {
    match d {
        CardinalDirection::North => CardinalDirection::West,
        CardinalDirection::East => CardinalDirection::North,
        CardinalDirection::South => CardinalDirection::East,
        CardinalDirection::West => CardinalDirection::South,
    }
}

/// The two cardinal directions that bound an ordinal quadrant.
pub open spec fn cardinals_of(o: OrdinalDirection) -> (CardinalDirection, CardinalDirection) {
    match o {
        OrdinalDirection::NorthEast => (CardinalDirection::North, CardinalDirection::East),
        OrdinalDirection::SouthEast => (CardinalDirection::East, CardinalDirection::South),
        OrdinalDirection::SouthWest => (CardinalDirection::South, CardinalDirection::West),
        OrdinalDirection::NorthWest => (CardinalDirection::West, CardinalDirection::North),
    }
}

/// The grid step of a cardinal direction; north is towards smaller `y`.
pub open spec fn offset_of(d: CardinalDirection) -> (int, int) {
    match d {
        CardinalDirection::North => (0, -1),
        CardinalDirection::East => (1, 0),
        CardinalDirection::South => (0, 1),
        CardinalDirection::West => (-1, 0),
    }
}

pub assume_specification[ CardinalDirection::right90 ](self_: CardinalDirection) -> (r:
    CardinalDirection)
    ensures
        r == right90_of(self_),
;

pub assume_specification[ CardinalDirection::coord ](self_: CardinalDirection) -> (r: ICoord)
    ensures
        (r.x as int, r.y as int) == offset_of(self_),
;

pub assume_specification[ OrdinalDirection::to_cardinals ](self_: OrdinalDirection) -> (r: (
    CardinalDirection,
    CardinalDirection,
))
    ensures
        r == cardinals_of(self_),
;

/// Whether two cardinal directions are the same one.
pub fn same_cardinal(a: CardinalDirection, b: CardinalDirection) -> (r: bool)
    ensures
        r == (a == b),
{
    match (a, b) {
        (CardinalDirection::North, CardinalDirection::North) => true,
        (CardinalDirection::East, CardinalDirection::East) => true,
        (CardinalDirection::South, CardinalDirection::South) => true,
        (CardinalDirection::West, CardinalDirection::West) => true,
        _ => false,
    }
}

} // verus!
