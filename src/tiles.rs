//! Choosing the bevel piece of each quadrant of a wall cell.
use vstd::prelude::*;

use crate::compass::{cardinals_of, left90_of, offset_of, right90_of, same_cardinal};
use crate::grid::{cell_at, cell_at_or_floor, grid_fits, grid_height, grid_width, CellType};
use direction::{CardinalDirection, OrdinalDirection};
use grid_2d::{Grid, ICoord};

verus! {

// Inner:   Outer:   Left:    Right:
// #.       ..       ..       #.
// ##       #.       ##       #.
/// The shape of wall bevel in one quadrant of a wall cell.
#[derive(Debug, Clone, Copy, PartialEq, Eq, Structural)]
pub enum Piece {
    Inner,
    Outer,
    Left,
    Right,
}

/// Whether `a` and `b` are a quarter turn apart, as the two sides of a
/// quadrant are.
pub open spec fn perpendicular(a: CardinalDirection, b: CardinalDirection) -> bool {
    b == right90_of(a) || b == left90_of(a)
}

/// The bevel between a wall on side `wall` and floor on side `floor`.
pub open spec fn bevel_of(wall: CardinalDirection, floor: CardinalDirection) -> Piece {
    if right90_of(wall) == floor {
        Piece::Right
    } else {
        Piece::Left
    }
}

/// The piece for a quadrant whose two sides hold the given cells.
pub open spec fn piece_for(a: (CellType, CardinalDirection), b: (CellType, CardinalDirection)) -> Piece {
    match (a.0, b.0) {
        (CellType::Floor, CellType::Floor) => Piece::Outer,
        (CellType::Wall, CellType::Wall) => Piece::Inner,
        (CellType::Wall, CellType::Floor) => bevel_of(a.1, b.1),
        (CellType::Floor, CellType::Wall) => bevel_of(b.1, a.1),
    }
}

/// The cell one step from `(x, y)` towards `d`.
pub open spec fn neighbour(g: Grid<CellType>, x: int, y: int, d: CardinalDirection) -> CellType {
    cell_at(g, x + offset_of(d).0, y + offset_of(d).1)
}

/// The piece in quadrant `o` of the cell at `(x, y)`.
pub open spec fn quarter_piece(g: Grid<CellType>, x: int, y: int, o: OrdinalDirection) -> Piece {
    let (ca, cb) = cardinals_of(o);
    piece_for((neighbour(g, x, y, ca), ca), (neighbour(g, x, y, cb), cb))
}

/// The quadrants of a cell in the order that a cell's details keep them.
pub open spec fn ordinal_at(i: int) -> OrdinalDirection {
    if i == 0 {
        OrdinalDirection::NorthEast
    } else if i == 1 {
        OrdinalDirection::SouthEast
    } else if i == 2 {
        OrdinalDirection::SouthWest
    } else {
        OrdinalDirection::NorthWest
    }
}

/// The pieces of the four quadrants of the cell at `(x, y)`, in the order of
/// `ordinal_at`.
pub open spec fn cell_pieces(g: Grid<CellType>, x: int, y: int) -> Seq<Piece> {
    Seq::new(4, |i: int| quarter_piece(g, x, y, ordinal_at(i)))
}

/// A coordinate whose neighbours' coordinates are all representable.
pub open spec fn inner_coord(c: ICoord) -> bool {
    i32::MIN < c.x < i32::MAX && i32::MIN < c.y < i32::MAX
}

impl Piece {
    /// The piece for a quadrant whose two sides hold the given cells. Where
    /// one side is wall and the other floor, the two sides must be a quarter
    /// turn apart. Which argument holds the wall does not matter.
    pub fn choose_from(neigh_a: (CellType, CardinalDirection), neigh_b: (CellType, CardinalDirection)) -> (r:
        Self)
        requires
            neigh_a.0 != neigh_b.0 ==> perpendicular(neigh_a.1, neigh_b.1),
        ensures
            r == piece_for(neigh_a, neigh_b),
    {
        let (wall_direction, floor_direction) = match (neigh_a.0, neigh_b.0) {
            (CellType::Floor, CellType::Floor) => return Piece::Outer,
            (CellType::Wall, CellType::Wall) => return Piece::Inner,
            (CellType::Wall, CellType::Floor) => (neigh_a.1, neigh_b.1),
            (CellType::Floor, CellType::Wall) => (neigh_b.1, neigh_a.1),
        };
        if same_cardinal(wall_direction.right90(), floor_direction) {
            return Piece::Right;
        }
        proof {
            assert(floor_direction == left90_of(wall_direction));
        }
        Piece::Left
    }
}

/// The resolved piece of one quadrant of one cell.
#[derive(Debug, Clone, Copy, PartialEq, Eq, Structural)]
pub struct Quarter {
    pub piece: Piece,
}

impl Quarter {
    /// The quarter in quadrant `direction` of the cell at `coord`, from the
    /// two cells beside that quadrant.
    pub fn from_grid(grid: &Grid<CellType>, coord: ICoord, direction: OrdinalDirection) -> (r: Self)
        requires
            grid_fits(*grid),
            inner_coord(coord),
        ensures
            r.piece == quarter_piece(*grid, coord.x as int, coord.y as int, direction),
    {
        let (card_a, card_b) = direction.to_cardinals();
        let step_a = card_a.coord();
        let step_b = card_b.coord();
        let cell_type_a = cell_at_or_floor(grid, coord.x + step_a.x, coord.y + step_a.y);
        let cell_type_b = cell_at_or_floor(grid, coord.x + step_b.x, coord.y + step_b.y);
        let piece = Piece::choose_from((cell_type_a, card_a), (cell_type_b, card_b));
        Self { piece }
    }
}

/// The four quarters of a wall cell, in the order north-east, south-east,
/// south-west, north-west.
#[derive(Debug, Clone, Copy)]
pub struct CellDetails {
    pub quarters: [Quarter; 4],
}

impl CellDetails {
    pub open spec fn pieces(self) -> Seq<Piece> {
        self.quarters@.map_values(|q: Quarter| q.piece)
    }

    /// The details of a lone wall cell: an outer corner in every quadrant.
    pub fn outer() -> (r: Self)
        ensures
            r.pieces() == seq![Piece::Outer, Piece::Outer, Piece::Outer, Piece::Outer],
    {
        let quarter = Quarter { piece: Piece::Outer };
        let r = Self { quarters: [quarter, quarter, quarter, quarter] };
        assert(r.pieces() =~= seq![Piece::Outer, Piece::Outer, Piece::Outer, Piece::Outer]);
        r
    }

    /// The details of the cell at `coord`: `None` for a floor cell (or one
    /// outside the grid), else the piece of each of its quadrants.
    pub fn from_grid(grid: &Grid<CellType>, coord: ICoord) -> (r: Option<Self>)
        requires
            grid_fits(*grid),
        ensures
            r is None <==> cell_at(*grid, coord.x as int, coord.y as int) == CellType::Floor,
            r matches Some(d) ==> d.pieces() == cell_pieces(*grid, coord.x as int, coord.y as int),
    {
        if let CellType::Floor = cell_at_or_floor(grid, coord.x, coord.y) {
            return None;
        }
        let width = grid_width(grid);
        let height = grid_height(grid);
        assert(0 <= coord.x < width && 0 <= coord.y < height);
        assert(inner_coord(coord));
        let r = Self {
            quarters: [
                Quarter::from_grid(grid, coord, OrdinalDirection::NorthEast),
                Quarter::from_grid(grid, coord, OrdinalDirection::SouthEast),
                Quarter::from_grid(grid, coord, OrdinalDirection::SouthWest),
                Quarter::from_grid(grid, coord, OrdinalDirection::NorthWest),
            ],
        };
        assert(r.pieces() =~= cell_pieces(*grid, coord.x as int, coord.y as int));
        Some(r)
    }
}

/// The piece does not depend on which of the two sides is given first.
pub proof fn lemma_choose_symmetric(a: (CellType, CardinalDirection), b: (CellType, CardinalDirection))
    ensures
        perpendicular(a.1, b.1) <==> perpendicular(b.1, a.1),
        piece_for(a, b) == piece_for(b, a),
{
}

/// A wall cell with wall on all four sides has an inner corner in every
/// quadrant; one with floor on all four sides has an outer corner in every
/// quadrant.
pub proof fn lemma_enclosed_and_isolated_walls(g: Grid<CellType>, x: int, y: int)
    ensures
        (forall|d: CardinalDirection| #[trigger] neighbour(g, x, y, d) == CellType::Wall)
            ==> cell_pieces(g, x, y) == seq![Piece::Inner, Piece::Inner, Piece::Inner, Piece::Inner],
        (forall|d: CardinalDirection| #[trigger] neighbour(g, x, y, d) == CellType::Floor)
            ==> cell_pieces(g, x, y) == seq![Piece::Outer, Piece::Outer, Piece::Outer, Piece::Outer],
{
    let n = neighbour(g, x, y, CardinalDirection::North);
    let e = neighbour(g, x, y, CardinalDirection::East);
    let so = neighbour(g, x, y, CardinalDirection::South);
    let w = neighbour(g, x, y, CardinalDirection::West);
    if forall|d: CardinalDirection| #[trigger] neighbour(g, x, y, d) == CellType::Wall {
        assert(n == CellType::Wall && e == CellType::Wall && so == CellType::Wall && w
            == CellType::Wall);
        assert(cell_pieces(g, x, y) =~= seq![Piece::Inner, Piece::Inner, Piece::Inner, Piece::Inner]);
    }
    if forall|d: CardinalDirection| #[trigger] neighbour(g, x, y, d) == CellType::Floor {
        assert(n == CellType::Floor && e == CellType::Floor && so == CellType::Floor && w
            == CellType::Floor);
        assert(cell_pieces(g, x, y) =~= seq![Piece::Outer, Piece::Outer, Piece::Outer, Piece::Outer]);
    }
}

} // verus!
