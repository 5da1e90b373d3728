//! Placing each piece in its cell and quadrant, and joining every piece of
//! the grid into one mesh.
use vstd::prelude::*;

use crate::geometry::{
    lemma_piece_in_range, lemma_piece_positions_bounded, make_geometry, piece_model, Config,
    Style, PX_LIMIT,
};
use crate::grid::{cell_at, grid_fits, grid_height, grid_size, grid_width, CellType};
use crate::mesh::{
    bounded, cat_all, indices_in_range, models, transformed, MeshModel, RelativeBuffers, Transform,
    Vec3, YRotation,
};
use crate::tiles::{cell_pieces, ordinal_at, CellDetails, Piece};
use direction::OrdinalDirection;
use grid_2d::{Grid, ICoord};

verus! {

/// The turn that brings the north-east quadrant frame onto quadrant `o`.
pub open spec fn rotation_of(o: OrdinalDirection) -> YRotation {
    match o {
        OrdinalDirection::NorthEast => YRotation::Deg0,
        OrdinalDirection::SouthEast => YRotation::Deg90,
        OrdinalDirection::SouthWest => YRotation::Deg180,
        OrdinalDirection::NorthWest => YRotation::DegMinus90,
    }
}

/// The centre of the cell at `(x, y)`, on the ground.
pub open spec fn cell_centre(x: int, y: int, config: Config) -> Vec3 {
    let s = config.cell_size_px as int;
    Vec3 { x: (x * s + s / 2) as i64, y: 0, z: (y * s + s / 2) as i64 }
}

/// What takes the quadrant frame to quadrant `o` of the cell at `(x, y)`:
/// first the turn, then the move to the cell's centre.
pub open spec fn placement(x: int, y: int, o: OrdinalDirection, config: Config) -> Transform {
    Transform { rotation: rotation_of(o), translation: cell_centre(x, y, config) }
}

/// The rotation that turns the north-east quadrant onto `direction`.
pub fn rotate_to_direction(direction: OrdinalDirection) -> (r: YRotation)
    ensures
        r == rotation_of(direction),
{
    match direction {
        OrdinalDirection::NorthEast => YRotation::Deg0,
        OrdinalDirection::SouthEast => YRotation::Deg90,
        OrdinalDirection::SouthWest => YRotation::Deg180,
        OrdinalDirection::NorthWest => YRotation::DegMinus90,
    }
}

/// The offset from the origin to the centre of the cell at `coord`. The
/// centre is a whole pixel only for an even cell size.
pub fn move_to_cell_centre(coord: ICoord, config: &Config) -> (r: Vec3)
    requires
        config.wf(),
        config.cell_size_px % 2 == 0,
    ensures
        r == cell_centre(coord.x as int, coord.y as int, *config),
        bounded(r),
{
    let s = config.cell_size_px;
    proof {
        assert(-0x8000_0000 * PX_LIMIT <= coord.x * s <= 0x8000_0000 * PX_LIMIT) by (nonlinear_arith)
            requires
                i32::MIN <= coord.x <= i32::MAX,
                -PX_LIMIT <= s <= PX_LIMIT,
        ;
        assert(-0x8000_0000 * PX_LIMIT <= coord.y * s <= 0x8000_0000 * PX_LIMIT) by (nonlinear_arith)
            requires
                i32::MIN <= coord.y <= i32::MAX,
                -PX_LIMIT <= s <= PX_LIMIT,
        ;
    }
    let half = s / 2;
    Vec3 { x: coord.x as i64 * s + half, y: 0, z: coord.y as i64 * s + half }
}

/// The meshes of the four quadrants of a wall cell whose pieces are
/// `pieces`, each placed in its quadrant.
pub open spec fn quarter_models(
    pieces: Seq<Piece>,
    x: int,
    y: int,
    style: Style,
    config: Config,
) -> Seq<MeshModel> {
    Seq::new(
        4,
        |i: int| transformed(piece_model(pieces[i], style, config), placement(x, y, ordinal_at(i), config)),
    )
}

impl CellDetails {
    /// The meshes of this cell's four quarters, placed in the cell at
    /// `coord`, in the order north-east, south-east, south-west, north-west.
    pub fn make_geometry(&self, coord: ICoord, style: &Style, config: &Config) -> (r: Vec<
        RelativeBuffers,
    >)
        requires
            style.wf(),
            config.wf(),
            config.cell_size_px % 2 == 0,
        ensures
            models(r@) == quarter_models(self.pieces(), coord.x as int, coord.y as int, *style, *config),
            forall|i: int| 0 <= i < r.len() ==> indices_in_range(#[trigger] r@[i]@),
            forall|i: int| 0 <= i < r.len() ==> (#[trigger] r@[i]).attributes.len() <= 12,
    {
        let translation = move_to_cell_centre(coord, config);
        let directions = [
            OrdinalDirection::NorthEast,
            OrdinalDirection::SouthEast,
            OrdinalDirection::SouthWest,
            OrdinalDirection::NorthWest,
        ];
        let ghost target = quarter_models(self.pieces(), coord.x as int, coord.y as int, *style, *config);
        let mut r: Vec<RelativeBuffers> = Vec::new();
        let mut i: usize = 0;
        while i < 4
            invariant
                style.wf(),
                config.wf(),
                config.cell_size_px % 2 == 0,
                translation == cell_centre(coord.x as int, coord.y as int, *config),
                bounded(translation),
                forall|k: int| 0 <= k < 4 ==> directions@[k] == ordinal_at(k),
                target == quarter_models(
                    self.pieces(),
                    coord.x as int,
                    coord.y as int,
                    *style,
                    *config,
                ),
                i <= 4,
                r.len() == i,
                forall|k: int| 0 <= k < i ==> (#[trigger] r@[k])@ == target[k],
                forall|k: int| 0 <= k < i ==> indices_in_range(#[trigger] r@[k]@),
                forall|k: int| 0 <= k < i ==> (#[trigger] r@[k]).attributes.len() <= 12,
            decreases 4 - i,
        {
            let piece = self.quarters[i].piece;
            proof {
                lemma_piece_in_range(piece, *style, *config);
                lemma_piece_positions_bounded(piece, *style, *config);
            }
            let t = Transform { rotation: rotate_to_direction(directions[i]), translation };
            let placed = make_geometry(piece, style, config).transform(t);
            assert(self.pieces()[i as int] == piece);
            assert(placed@ == target[i as int]);
            r.push(placed);
            i = i + 1;
        }
        assert(models(r@) =~= target);
        r
    }
}

/// The placed quarter meshes of the cell at `(x, y)`: none for floor.
pub open spec fn cell_models(g: Grid<CellType>, x: int, y: int, style: Style, config: Config) -> Seq<
    MeshModel,
> {
    if cell_at(g, x, y) == CellType::Floor {
        Seq::empty()
    } else {
        quarter_models(cell_pieces(g, x, y), x, y, style, config)
    }
}

/// The placed quarter meshes of the first `n` cells of the grid, row by row.
pub open spec fn grid_models(g: Grid<CellType>, n: nat, style: Style, config: Config) -> Seq<
    MeshModel,
>
    decreases n,
{
    if n == 0 {
        Seq::empty()
    } else {
        let w = grid_size(g).0 as int;
        let k = n - 1;
        grid_models(g, (n - 1) as nat, style, config) + cell_models(g, k % w, k / w, style, config)
    }
}

/// The mesh of the whole grid: every wall cell's quarters, cells row by row
/// and quarters in the order north-east, south-east, south-west, north-west.
pub open spec fn mesh_model(g: Grid<CellType>, style: Style, config: Config) -> MeshModel {
    cat_all(grid_models(g, grid_size(g).1 * grid_size(g).0, style, config))
}

/// The mesh of every wall of the grid, or `None` where the grid has more
/// cells than `grid_2d` can count in `u32`, or the mesh more vertices than
/// 32-bit indices can refer to.
pub fn build_mesh(grid: &Grid<CellType>, style: &Style, config: &Config) -> (r: Option<
    RelativeBuffers,
>)
    requires
        style.wf(),
        config.wf(),
        config.cell_size_px % 2 == 0,
    ensures
        r is Some <==> grid_fits(*grid) && mesh_model(*grid, *style, *config).attributes.len()
            <= u32::MAX,
        r matches Some(m) ==> m@ == mesh_model(*grid, *style, *config) && indices_in_range(m@),
{
    let width = grid_width(grid);
    let height = grid_height(grid);
    assert(width as u64 * height as u64 <= 0x4000_0000_0000_0000) by (nonlinear_arith)
        requires
            width <= i32::MAX,
            height <= i32::MAX,
    ;
    if width as u64 * height as u64 > u32::MAX as u64 {
        return None;
    }
    let mut parts: Vec<RelativeBuffers> = Vec::new();
    let mut y: u32 = 0;
    while y < height
        invariant
            y <= height,
            width as int == grid_size(*grid).0,
            height as int == grid_size(*grid).1,
            width <= i32::MAX,
            height <= i32::MAX,
            grid_fits(*grid),
            style.wf(),
            config.wf(),
            config.cell_size_px % 2 == 0,
            models(parts@) == grid_models(*grid, (y * width) as nat, *style, *config),
            forall|i: int| 0 <= i < parts.len() ==> indices_in_range(#[trigger] parts@[i]@),
            forall|i: int| 0 <= i < parts.len() ==> (#[trigger] parts@[i]).attributes.len() <= 12,
        decreases height - y,
    {
        let mut x: u32 = 0;
        while x < width
            invariant
                x <= width,
                y < height,
                width as int == grid_size(*grid).0,
                height as int == grid_size(*grid).1,
                width <= i32::MAX,
                height <= i32::MAX,
                grid_fits(*grid),
                style.wf(),
                config.wf(),
                config.cell_size_px % 2 == 0,
                models(parts@) == grid_models(*grid, (y * width + x) as nat, *style, *config),
                forall|i: int| 0 <= i < parts.len() ==> indices_in_range(#[trigger] parts@[i]@),
                forall|i: int| 0 <= i < parts.len() ==> (#[trigger] parts@[i]).attributes.len() <= 12,
            decreases width - x,
        {
            let coord = ICoord { x: x as i32, y: y as i32 };
            let ghost n = y * width + x;
            proof {
                assert(0 <= y * width) by (nonlinear_arith)
                    requires
                        0 <= y,
                        0 <= width,
                ;
                vstd::arithmetic::div_mod::lemma_fundamental_div_mod_converse(
                    n,
                    width as int,
                    y as int,
                    x as int,
                );
            }
            let ghost before = parts@;
            if let Some(details) = CellDetails::from_grid(grid, coord) {
                let mut quarters = details.make_geometry(coord, style, config);
                let ghost qs = quarters@;
                parts.append(&mut quarters);
                assert(models(parts@) =~= models(before) + cell_models(
                    *grid,
                    x as int,
                    y as int,
                    *style,
                    *config,
                ));
                assert forall|i: int| 0 <= i < parts.len() implies indices_in_range(
                    #[trigger] parts@[i]@,
                ) && parts@[i].attributes.len() <= 12 by {
                    if i >= before.len() {
                        assert(parts@[i] == qs[i - before.len()]);
                    }
                }
            } else {
                assert(models(parts@) =~= models(before) + cell_models(
                    *grid,
                    x as int,
                    y as int,
                    *style,
                    *config,
                ));
            }
            x = x + 1;
        }
        proof {
            assert(y * width + width == (y + 1) * width) by (nonlinear_arith);
        }
        y = y + 1;
    }
    let ghost ms = models(parts@);
    let mut total: u64 = 0;
    let mut k: usize = 0;
    while k < parts.len()
        invariant
            k <= parts.len(),
            ms == models(parts@),
            forall|i: int| 0 <= i < parts.len() ==> (#[trigger] parts@[i]).attributes.len() <= 12,
            total <= u32::MAX + 12,
            total <= u32::MAX ==> total == cat_all(ms.take(k as int)).attributes.len(),
            total > u32::MAX ==> cat_all(ms.take(k as int)).attributes.len() > u32::MAX,
        decreases parts.len() - k,
    {
        proof {
            crate::mesh::lemma_cat_all_step(ms, k as int);
        }
        if total <= u32::MAX as u64 {
            total = total + parts[k].attributes.len() as u64;
        }
        k = k + 1;
    }
    assert(ms.take(parts.len() as int) =~= ms);
    assert(y * width == height * width);
    if total > u32::MAX as u64 {
        None
    } else {
        proof {
            crate::mesh::lemma_cat_all_in_range(ms);
        }
        Some(RelativeBuffers::concat_all(parts))
    }
}

/// Building is deterministic: two meshes built from the same grid, style and
/// configuration hold the same vertices and the same indices, in the same
/// order.
pub proof fn lemma_build_mesh_deterministic(
    g: Grid<CellType>,
    style: Style,
    config: Config,
    a: RelativeBuffers,
    b: RelativeBuffers,
)
    requires
        a@ == mesh_model(g, style, config),
        b@ == mesh_model(g, style, config),
    ensures
        a.attributes@ == b.attributes@,
        a.indices@ == b.indices@,
{
    crate::mesh::lemma_same_model_same_buffers(a, b);
}

} // verus!
