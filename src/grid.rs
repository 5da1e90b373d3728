//! Wall and floor cells, and the grid of `grid_2d` that holds them.
use vstd::prelude::*;

use grid_2d::{Grid, ICoord, UCoord};

verus! {

/// What occupies one cell of the terrain.
#[derive(Debug, Clone, Copy, PartialEq, Eq, Structural)]
pub enum CellType {
    Wall,
    Floor,
}

#[verifier::external_type_specification]
#[verifier::external_body]
#[verifier::reject_recursive_types(T)]
pub struct ExGrid<T>(Grid<T>);

/// The cells that a grid holds, keyed by `(x, y)`.
pub uninterp spec fn grid_cells(g: Grid<CellType>) -> Map<(int, int), CellType>;

/// The width and height that a grid was made with.
pub uninterp spec fn grid_size(g: Grid<CellType>) -> (nat, nat);

pub open spec fn in_grid(g: Grid<CellType>, x: int, y: int) -> bool {
    0 <= x < grid_size(g).0 && 0 <= y < grid_size(g).1
}

/// The grid holds all of its cells: `grid_2d` counts them as width times
/// height in `u32`.
pub open spec fn grid_fits(g: Grid<CellType>) -> bool {
    grid_size(g).0 * grid_size(g).1 <= u32::MAX
}

/// The cell at `(x, y)`; everything outside the grid counts as open floor.
pub open spec fn cell_at(g: Grid<CellType>, x: int, y: int) -> CellType {
    if in_grid(g, x, y) {
        grid_cells(g)[(x, y)]
    } else {
        CellType::Floor
    }
}

/// Relies on `grid_2d::Grid::get`: the cell at a coordinate inside the grid,
/// `None` outside it. The cell vector has width times height cells only where
/// that product fits `u32`; elsewhere the lookup can index past its end.
#[verifier::external_body]
fn grid_get(g: &Grid<CellType>, c: ICoord) -> (r: Option<CellType>)
    requires
        grid_fits(*g),
    ensures
        in_grid(*g, c.x as int, c.y as int) ==> r == Some(grid_cells(*g)[(c.x as int, c.y as int)]),
        !in_grid(*g, c.x as int, c.y as int) ==> r is None,
{
    g.get(c).cloned()
}

/// Relies on `grid_2d::Grid::width`: the width the grid was made with, which
/// `grid_2d::UCoord` keeps within `i32::MAX`.
#[verifier::external_body]
pub(crate) fn grid_width(g: &Grid<CellType>) -> (r: u32)
    ensures
        r as int == grid_size(*g).0,
        r <= i32::MAX,
{
    g.width()
}

/// Relies on `grid_2d::Grid::height`: the height the grid was made with, which
/// `grid_2d::UCoord` keeps within `i32::MAX`.
#[verifier::external_body]
pub(crate) fn grid_height(g: &Grid<CellType>) -> (r: u32)
    ensures
        r as int == grid_size(*g).1,
        r <= i32::MAX,
{
    g.height()
}

/// Relies on `grid_2d::Grid::try_new_iterator` and `UCoord::new`: a grid of the
/// given size whose cells are taken row by row from `cells`, or `None` when
/// the number of cells does not match the size.
#[verifier::external_body]
fn grid_from_row_major(width: u32, height: u32, cells: Vec<CellType>) -> (r: Option<
    Grid<CellType>,
>)
    requires
        width <= i32::MAX,
        height <= i32::MAX,
        width * height <= u32::MAX,
    ensures
        r is Some <==> cells@.len() == width * height,
        r matches Some(g) ==> grid_size(g) == (width as nat, height as nat) && forall|x: int, y: int|
            0 <= x < width && 0 <= y < height ==> grid_cells(g)[(x, y)] == cells@[y * width + x],
{
    Grid::try_new_iterator(UCoord::new(width, height), cells.into_iter()).ok()
}

/// The cell at `(x, y)`, or floor where that lies outside the grid.
pub fn cell_at_or_floor(g: &Grid<CellType>, x: i32, y: i32) -> (r: CellType)
    requires
        grid_fits(*g),
    ensures
        r == cell_at(*g, x as int, y as int),
{
    match grid_get(g, ICoord { x, y }) {
        Some(c) => c,
        None => CellType::Floor,
    }
}

/// The cell type that a terrain character stands for: `#` is wall, `.` is
/// floor, anything else is not terrain.
pub fn cell_type_of_char(c: char) -> (r: Option<CellType>)
    ensures
        r == (if c == '#' {
            Some(CellType::Wall)
        } else if c == '.' {
            Some(CellType::Floor)
        } else {
            None
        }),
{
    if c == '#' {
        Some(CellType::Wall)
    } else if c == '.' {
        Some(CellType::Floor)
    } else {
        None
    }
}

/// The terrain character `c` stands for a cell.
pub open spec fn is_terrain(c: char) -> bool {
    c == '#' || c == '.'
}

pub open spec fn cell_of_char(c: char) -> CellType {
    if c == '#' {
        CellType::Wall
    } else {
        CellType::Floor
    }
}

/// Rows of terrain that make a grid: equally long, of terrain characters
/// only, and small enough for `grid_2d`.
pub open spec fn valid_terrain(rows: Seq<Seq<char>>) -> bool {
    let width = if rows.len() == 0 {
        0
    } else {
        rows[0].len()
    };
    &&& forall|y: int| 0 <= y < rows.len() ==> (#[trigger] rows[y]).len() == width
    &&& forall|y: int, x: int|
        0 <= y < rows.len() && 0 <= x < width ==> is_terrain(#[trigger] rows[y][x])
    &&& width <= i32::MAX
    &&& rows.len() <= i32::MAX
    &&& width * rows.len() <= u32::MAX
}

/// The grid that rows of terrain describe, one row per line from the top:
/// `#` is wall and `.` is floor. `None` where the rows differ in length,
/// hold another character, or are too many or too long for a grid.
pub fn grid_from_terrain(rows: &Vec<Vec<char>>) -> (r: Option<Grid<CellType>>)
    ensures
        r is Some <==> valid_terrain(rows@.map_values(|row: Vec<char>| row@)),
        r matches Some(g) ==> {
            &&& grid_fits(g)
            &&& grid_size(g) == (if rows.len() == 0 {
                0nat
            } else {
                rows@[0]@.len()
            }, rows@.len())
            &&& forall|x: int, y: int|
                #![trigger grid_cells(g)[(x, y)]]
                in_grid(g, x, y) ==> grid_cells(g)[(x, y)] == cell_of_char(rows@[y]@[x])
        },
{
    let ghost view = rows@.map_values(|row: Vec<char>| row@);
    let height = rows.len();
    let width = if height == 0 {
        0
    } else {
        rows[0].len()
    };
    if width > i32::MAX as usize || height > i32::MAX as usize {
        return None;
    }
    assert(width as u64 * height as u64 <= 0x4000_0000_0000_0000) by (nonlinear_arith)
        requires
            width <= i32::MAX,
            height <= i32::MAX,
    ;
    if width as u64 * height as u64 > u32::MAX as u64 {
        return None;
    }
    let mut cells: Vec<CellType> = Vec::new();
    let mut y: usize = 0;
    while y < height
        invariant
            height == rows.len(),
            view == rows@.map_values(|row: Vec<char>| row@),
            width == (if height == 0 {
                0
            } else {
                rows@[0].len()
            }),
            width <= i32::MAX,
            height <= i32::MAX,
            width * height <= u32::MAX,
            y <= height,
            cells@.len() == y * width,
            forall|yy: int| 0 <= yy < y ==> (#[trigger] rows@[yy]).len() == width,
            forall|yy: int, xx: int|
                0 <= yy < y && 0 <= xx < width ==> is_terrain(#[trigger] rows@[yy]@[xx]),
            forall|k: int|
                0 <= k < y * width ==> cells@[k] == cell_of_char(#[trigger] rows@[k / width as int]@[k
                    % width as int]),
        decreases height - y,
    {
        let row = &rows[y];
        if row.len() != width {
            assert(view[y as int] == rows@[y as int]@);
            assert(view[0] == rows@[0]@);
            assert(view[y as int].len() != view[0].len());
            return None;
        }
        let mut x: usize = 0;
        while x < width
            invariant
                height == rows.len(),
                view == rows@.map_values(|row: Vec<char>| row@),
                width == (if height == 0 {
                    0
                } else {
                    rows@[0].len()
                }),
                row == rows@[y as int],
                row.len() == width,
                y < height,
                x <= width,
                width * height <= u32::MAX,
                cells@.len() == y * width + x,
                forall|xx: int| 0 <= xx < x ==> is_terrain(#[trigger] rows@[y as int]@[xx]),
                forall|k: int|
                    0 <= k < y * width + x ==> cells@[k] == cell_of_char(
                        #[trigger] rows@[k / width as int]@[k % width as int],
                    ),
            decreases width - x,
        {
            match cell_type_of_char(row[x]) {
                Some(c) => {
                    proof {
                        vstd::arithmetic::div_mod::lemma_fundamental_div_mod_converse(
                            y * width + x,
                            width as int,
                            y as int,
                            x as int,
                        );
                    }
                    cells.push(c);
                },
                None => {
                    assert(view[y as int] == rows@[y as int]@);
                    assert(view[0] == rows@[0]@);
                    assert(!is_terrain(view[y as int][x as int]));
                    return None;
                },
            }
            x = x + 1;
        }
        proof {
            assert((y + 1) * width == y * width + width) by (nonlinear_arith);
            assert((y + 1) * width <= height * width) by (nonlinear_arith)
                requires
                    y < height,
            ;
        }
        y = y + 1;
    }
    assert forall|yy: int| 0 <= yy < view.len() implies (#[trigger] view[yy]).len() == width by {
        assert(view[yy] == rows@[yy]@);
    }
    assert forall|yy: int, xx: int| 0 <= yy < view.len() && 0 <= xx < width implies is_terrain(
        #[trigger] view[yy][xx],
    ) by {
        assert(view[yy] == rows@[yy]@);
    }
    if height > 0 {
        assert(view[0] == rows@[0]@);
    }
    assert(valid_terrain(view));
    assert(cells@.len() == width * height) by (nonlinear_arith)
        requires
            cells@.len() == y * width,
            y == height,
    ;
    let r = grid_from_row_major(width as u32, height as u32, cells);
    if let Some(g) = &r {
        assert forall|x: int, y: int| #![trigger grid_cells(*g)[(x, y)]] in_grid(*g, x, y) implies grid_cells(*g)[(x, y)]
            == cell_of_char(rows@[y]@[x]) by {
            vstd::arithmetic::div_mod::lemma_fundamental_div_mod_converse(
                y * width + x,
                width as int,
                y,
                x,
            );
            assert(y * width + x < height * width) by (nonlinear_arith)
                requires
                    0 <= y < height,
                    0 <= x < width,
            ;
        }
    }
    r
}

} // verus!
