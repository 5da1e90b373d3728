//! The local mesh of each bevel piece, in whole pixels.
//!
//! A piece lies in the quadrant frame of its cell: the cell's centre is the
//! origin, the quadrant extends towards positive `x` and `z`, and the wall's
//! top is at height `style.height_px`. The inner and outer corners only meet
//! their neighbours without a seam when the cell size is twice the bevel
//! width.
use vstd::prelude::*;

use crate::mesh::{
    bounded, cat, indices_in_range, positions_bounded, Attribute, MeshModel, RelativeBuffers, Vec2,
    Vec3,
};
use crate::tiles::Piece;

verus! {

/// The largest magnitude of a style or configuration value, in pixels.
pub const PX_LIMIT: i64 = 0x10_0000;

/// Geometry parameters.
#[derive(Debug, Clone, Copy, PartialEq, Eq, Structural)]
pub struct Config {
    /// The side of one grid cell.
    pub cell_size_px: i64,
}

/// How walls look: bevel width, wall height and where the texture atlas
/// holds the side and top images.
#[derive(Debug, Clone, Copy, PartialEq, Eq, Structural)]
pub struct Style {
    pub width_px: i64,
    pub height_px: i64,
    pub face_tex_top_left_px: Vec2,
    pub top_tex_top_left_px: Vec2,
}

pub open spec fn px_ok(v: i64) -> bool {
    -PX_LIMIT <= v <= PX_LIMIT
}

impl Config {
    pub open spec fn wf(self) -> bool {
        px_ok(self.cell_size_px)
    }
}

impl Style {
    pub open spec fn wf(self) -> bool {
        px_ok(self.width_px) && px_ok(self.height_px) && px_ok(self.face_tex_top_left_px.x)
            && px_ok(self.face_tex_top_left_px.y) && px_ok(self.top_tex_top_left_px.x)
            && px_ok(self.top_tex_top_left_px.y)
    }
}

/// A point of the foot of a wall side, with how far along the side's
/// texture it samples.
#[derive(Debug, Clone, Copy, PartialEq, Eq, Structural)]
pub struct BaseAttribute {
    pub face_tex_offset_px_x: i64,
    pub space_coord_px: Vec2,
}

/// A point of a wall top, with its texture offset within the piece's image.
#[derive(Debug, Clone, Copy, PartialEq, Eq, Structural)]
pub struct TopAttribute {
    pub tex_offset_px: Vec2,
    pub space_coord_px: Vec2,
}

pub open spec fn v2(x: int, y: int) -> Vec2 {
    Vec2 { x: x as i64, y: y as i64 }
}

pub open spec fn base(off: int, p: Vec2) -> BaseAttribute {
    BaseAttribute { face_tex_offset_px_x: off as i64, space_coord_px: p }
}

/// The profile of a piece's wall side, foot points in order along it.
pub open spec fn edge_base_of(piece: Piece, s: int, w: int) -> Seq<BaseAttribute> {
    match piece {
        Piece::Inner => seq![base(0, v2(s, w)), base(s - w, v2(w, w)), base(2 * (s - w), v2(w, s))],
        Piece::Outer => seq![base(0, v2(0, w)), base(w, v2(w, w)), base(2 * w, v2(0, w))],
        Piece::Left => seq![base(0, v2(s, w)), base(s, v2(0, w))],
        Piece::Right => seq![base(0, v2(w, 0)), base(s, v2(w, s))],
    }
}

/// Triangles over foot and top points that alternate, foot first: one quad
/// per profile segment.
pub open spec fn edge_indices_of(piece: Piece) -> Seq<u32> {
    match piece {
        Piece::Inner | Piece::Outer => seq![0u32, 1, 2, 1, 3, 2, 2, 3, 4, 3, 5, 4],
        Piece::Left | Piece::Right => seq![0u32, 1, 2, 1, 3, 2],
    }
}

pub open spec fn as_ints(s: Seq<u32>) -> Seq<int> {
    s.map_values(|i: u32| i as int)
}

/// The vertex of a wall side at the foot of `a`.
pub open spec fn face_base_vertex(a: BaseAttribute, style: Style) -> Attribute {
    Attribute {
        space_coord_px: Vec3 { x: a.space_coord_px.x, y: 0, z: a.space_coord_px.y },
        tex_coord_px: v2(
            a.face_tex_offset_px_x + style.face_tex_top_left_px.x,
            style.height_px + style.face_tex_top_left_px.y,
        ),
    }
}

/// The vertex of a wall side at the top, above `a`.
pub open spec fn face_top_vertex(a: BaseAttribute, style: Style) -> Attribute {
    Attribute {
        space_coord_px: Vec3 { x: a.space_coord_px.x, y: style.height_px, z: a.space_coord_px.y },
        tex_coord_px: v2(
            a.face_tex_offset_px_x + style.face_tex_top_left_px.x,
            style.face_tex_top_left_px.y as int,
        ),
    }
}

/// The wall side of a piece: foot and top vertices alternate along the
/// profile.
pub open spec fn faces_model(piece: Piece, style: Style, config: Config) -> MeshModel {
    let e = edge_base_of(piece, config.cell_size_px as int, style.width_px as int);
    MeshModel {
        attributes: Seq::new(
            2 * e.len(),
            |i: int|
                if i % 2 == 0 {
                    face_base_vertex(e[i / 2], style)
                } else {
                    face_top_vertex(e[i / 2], style)
                },
        ),
        indices: as_ints(edge_indices_of(piece)),
    }
}

fn base_attribute(face_tex_offset_px_x: i64, x: i64, y: i64) -> (r: BaseAttribute)
    ensures
        r == base(face_tex_offset_px_x as int, v2(x as int, y as int)),
{
    BaseAttribute { face_tex_offset_px_x, space_coord_px: Vec2 { x, y } }
}

/// The foot profile of a piece's wall side and the triangles over it.
pub fn make_edge_base(piece: Piece, style: &Style, config: &Config) -> (r: (
    Vec<BaseAttribute>,
    Vec<u32>,
))
    requires
        style.wf(),
        config.wf(),
    ensures
        r.0@ == edge_base_of(piece, config.cell_size_px as int, style.width_px as int),
        r.1@ == edge_indices_of(piece),
{
    let s = config.cell_size_px;
    let w = style.width_px;
    let inset = s - w;
    let double_inset = 2 * inset;
    let r = match piece {
        Piece::Inner => (
            vec![
                base_attribute(0, s, w),
                base_attribute(inset, w, w),
                base_attribute(double_inset, w, s),
            ],
            vec![0u32, 1, 2, 1, 3, 2, 2, 3, 4, 3, 5, 4],
        ),
        Piece::Outer => (
            vec![base_attribute(0, 0, w), base_attribute(w, w, w), base_attribute(2 * w, 0, w)],
            vec![0u32, 1, 2, 1, 3, 2, 2, 3, 4, 3, 5, 4],
        ),
        Piece::Left => (
            vec![base_attribute(0, s, w), base_attribute(s, 0, w)],
            vec![0u32, 1, 2, 1, 3, 2],
        ),
        Piece::Right => (
            vec![base_attribute(0, w, 0), base_attribute(s, w, s)],
            vec![0u32, 1, 2, 1, 3, 2],
        ),
    };
    assert(r.0@ =~= edge_base_of(piece, s as int, w as int));
    assert(r.1@ =~= edge_indices_of(piece));
    r
}

/// The wall side of a piece: for each point of its foot profile, a vertex
/// at the foot and one at the top, foot first.
pub fn make_faces(piece: Piece, style: &Style, config: &Config) -> (r: RelativeBuffers)
    requires
        style.wf(),
        config.wf(),
    ensures
        r@ == faces_model(piece, *style, *config),
{
    let (edge_base, indices) = make_edge_base(piece, style, config);
    let ghost e = edge_base@;
    let mut base_top_alternating: Vec<Attribute> = Vec::new();
    let mut i: usize = 0;
    while i < edge_base.len()
        invariant
            style.wf(),
            config.wf(),
            e == edge_base@,
            e == edge_base_of(piece, config.cell_size_px as int, style.width_px as int),
            i <= e.len(),
            base_top_alternating@.len() == 2 * i,
            forall|k: int|
                0 <= k < 2 * i ==> #[trigger] base_top_alternating@[k] == (if k % 2 == 0 {
                    face_base_vertex(e[k / 2], *style)
                } else {
                    face_top_vertex(e[k / 2], *style)
                }),
        decreases e.len() - i,
    {
        let a = edge_base[i];
        let base_vertex = Attribute {
            space_coord_px: Vec3 { x: a.space_coord_px.x, y: 0, z: a.space_coord_px.y },
            tex_coord_px: Vec2 {
                x: a.face_tex_offset_px_x + style.face_tex_top_left_px.x,
                y: style.height_px + style.face_tex_top_left_px.y,
            },
        };
        let top_vertex = Attribute {
            space_coord_px: Vec3 { x: a.space_coord_px.x, y: style.height_px, z: a.space_coord_px.y },
            tex_coord_px: Vec2 {
                x: a.face_tex_offset_px_x + style.face_tex_top_left_px.x,
                y: style.face_tex_top_left_px.y,
            },
        };
        base_top_alternating.push(base_vertex);
        base_top_alternating.push(top_vertex);
        assert(base_top_alternating@[2 * i as int] == face_base_vertex(e[i as int], *style));
        assert(base_top_alternating@[2 * i + 1] == face_top_vertex(e[i as int], *style));
        i = i + 1;
    }
    let r = RelativeBuffers { attributes: base_top_alternating, indices };
    assert(r@.attributes =~= faces_model(piece, *style, *config).attributes);
    assert(r@.indices =~= faces_model(piece, *style, *config).indices);
    r
}

/// A wall-top point at `p`, sampling the piece's image at `p` with `y`
/// pointing up the image.
pub open spec fn top_attribute(piece_tex_offset: Vec2, p: Vec2) -> TopAttribute {
    TopAttribute {
        tex_offset_px: v2(piece_tex_offset.x + p.x, piece_tex_offset.y - p.y),
        space_coord_px: p,
    }
}

impl TopAttribute {
    pub fn new(piece_tex_offset_px: Vec2, space_coord_px: Vec2) -> (r: Self)
        requires
            -3 * PX_LIMIT <= piece_tex_offset_px.x <= 3 * PX_LIMIT,
            -3 * PX_LIMIT <= piece_tex_offset_px.y <= 3 * PX_LIMIT,
            -3 * PX_LIMIT <= space_coord_px.x <= 3 * PX_LIMIT,
            -3 * PX_LIMIT <= space_coord_px.y <= 3 * PX_LIMIT,
        ensures
            r == top_attribute(piece_tex_offset_px, space_coord_px),
    {
        let tex_offset_px = Vec2 {
            x: piece_tex_offset_px.x + space_coord_px.x,
            y: piece_tex_offset_px.y - space_coord_px.y,
        };
        Self { tex_offset_px, space_coord_px }
    }
}

/// The corners of a `size` rectangle with one corner at the origin.
pub open spec fn rect_points(size: Vec2) -> Seq<Vec2> {
    seq![v2(0, 0), v2(0, size.y as int), size, v2(size.x as int, 0)]
}

pub open spec fn rect_indices() -> Seq<u32> {
    seq![0u32, 1, 2, 0, 2, 3]
}

/// The top points of a piece.
pub open spec fn top_points(piece: Piece, s: int, w: int) -> Seq<Vec2> {
    match piece {
        Piece::Inner => seq![v2(0, s), v2(w, s), v2(w, w), v2(0, 0), v2(s, 0), v2(s, w)],
        Piece::Outer => rect_points(v2(w, w)),
        Piece::Left => rect_points(v2(s, w)),
        Piece::Right => rect_points(v2(w, s)),
    }
}

/// Where in the top part of the atlas the image of a piece lies.
pub open spec fn top_tex_offset(piece: Piece, s: int) -> Vec2 {
    match piece {
        Piece::Inner => v2(s, s),
        Piece::Outer => v2(0, 2 * s),
        Piece::Left => v2(s, 2 * s),
        Piece::Right => v2(0, s),
    }
}

/// The triangles of a piece's top: a fan of four for an inner corner, two
/// for the rectangles of the others.
pub open spec fn top_indices(piece: Piece) -> Seq<u32> {
    match piece {
        Piece::Inner => seq![0u32, 1, 2, 0, 2, 3, 2, 4, 3, 2, 5, 4],
        _ => rect_indices(),
    }
}

/// The vertex of a wall top for `t`.
pub open spec fn top_vertex(t: TopAttribute, style: Style) -> Attribute {
    Attribute {
        space_coord_px: Vec3 { x: t.space_coord_px.x, y: style.height_px, z: t.space_coord_px.y },
        tex_coord_px: v2(
            t.tex_offset_px.x + style.top_tex_top_left_px.x,
            t.tex_offset_px.y + style.top_tex_top_left_px.y,
        ),
    }
}

/// The top of a piece.
pub open spec fn top_model(piece: Piece, style: Style, config: Config) -> MeshModel {
    let s = config.cell_size_px as int;
    let off = top_tex_offset(piece, s);
    MeshModel {
        attributes: top_points(piece, s, style.width_px as int).map_values(
            |p: Vec2| top_vertex(top_attribute(off, p), style),
        ),
        indices: as_ints(top_indices(piece)),
    }
}

/// The mesh of a piece: its top, then its wall side.
pub open spec fn piece_model(piece: Piece, style: Style, config: Config) -> MeshModel {
    cat(top_model(piece, style, config), faces_model(piece, style, config))
}

pub open spec fn tex_bounded(t: TopAttribute) -> bool {
    -3 * PX_LIMIT <= t.tex_offset_px.x <= 3 * PX_LIMIT && -3 * PX_LIMIT <= t.tex_offset_px.y <= 3
        * PX_LIMIT
}

/// The top points of a `size` rectangle and its two triangles.
pub fn make_rect_top(size: Vec2, piece_tex_offset_px: Vec2) -> (r: (Vec<TopAttribute>, Vec<u32>))
    requires
        -PX_LIMIT <= size.x <= PX_LIMIT,
        -PX_LIMIT <= size.y <= PX_LIMIT,
        -2 * PX_LIMIT <= piece_tex_offset_px.x <= 2 * PX_LIMIT,
        -2 * PX_LIMIT <= piece_tex_offset_px.y <= 2 * PX_LIMIT,
    ensures
        r.0@ == rect_points(size).map_values(|p: Vec2| top_attribute(piece_tex_offset_px, p)),
        r.1@ == rect_indices(),
{
    let attributes = vec![
        TopAttribute::new(piece_tex_offset_px, Vec2 { x: 0, y: 0 }),
        TopAttribute::new(piece_tex_offset_px, Vec2 { x: 0, y: size.y }),
        TopAttribute::new(piece_tex_offset_px, size),
        TopAttribute::new(piece_tex_offset_px, Vec2 { x: size.x, y: 0 }),
    ];
    let r = (attributes, vec![0u32, 1, 2, 0, 2, 3]);
    assert(r.0@ =~= rect_points(size).map_values(|p: Vec2| top_attribute(piece_tex_offset_px, p)));
    assert(r.1@ =~= rect_indices());
    r
}

/// The top of a piece, at wall height.
pub fn make_top(piece: Piece, style: &Style, config: &Config) -> (r: RelativeBuffers)
    requires
        style.wf(),
        config.wf(),
    ensures
        r@ == top_model(piece, *style, *config),
{
    let s = config.cell_size_px;
    let w = style.width_px;
    let ghost off = top_tex_offset(piece, s as int);
    let (attributes, indices) = match piece {
        Piece::Inner => {
            let piece_tex_offset_px = Vec2 { x: s, y: s };
            let r = (
                vec![
                    TopAttribute::new(piece_tex_offset_px, Vec2 { x: 0, y: s }),
                    TopAttribute::new(piece_tex_offset_px, Vec2 { x: w, y: s }),
                    TopAttribute::new(piece_tex_offset_px, Vec2 { x: w, y: w }),
                    TopAttribute::new(piece_tex_offset_px, Vec2 { x: 0, y: 0 }),
                    TopAttribute::new(piece_tex_offset_px, Vec2 { x: s, y: 0 }),
                    TopAttribute::new(piece_tex_offset_px, Vec2 { x: s, y: w }),
                ],
                vec![0u32, 1, 2, 0, 2, 3, 2, 4, 3, 2, 5, 4],
            );
            assert(r.0@ =~= top_points(piece, s as int, w as int).map_values(
                |p: Vec2| top_attribute(off, p),
            ));
            r
        },
        Piece::Outer => make_rect_top(Vec2 { x: w, y: w }, Vec2 { x: 0, y: 2 * s }),
        Piece::Left => make_rect_top(Vec2 { x: s, y: w }, Vec2 { x: s, y: 2 * s }),
        Piece::Right => make_rect_top(Vec2 { x: w, y: s }, Vec2 { x: 0, y: s }),
    };
    let ghost tops = attributes@;
    assert(tops =~= top_points(piece, s as int, w as int).map_values(|p: Vec2| top_attribute(off, p)));
    assert forall|k: int| 0 <= k < tops.len() implies tex_bounded(#[trigger] tops[k]) by {
        assert(tops[k] == top_attribute(off, top_points(piece, s as int, w as int)[k]));
    }
    let mut vertices: Vec<Attribute> = Vec::new();
    let mut i: usize = 0;
    while i < attributes.len()
        invariant
            forall|k: int| 0 <= k < tops.len() ==> tex_bounded(#[trigger] tops[k]),
            style.wf(),
            config.wf(),
            tops == attributes@,
            tops == top_points(piece, s as int, w as int).map_values(|p: Vec2| top_attribute(off, p)),
            off == top_tex_offset(piece, s as int),
            i <= tops.len(),
            vertices@ == tops.take(i as int).map_values(|t: TopAttribute| top_vertex(t, *style)),
        decreases tops.len() - i,
    {
        let a = attributes[i];
        assert(tex_bounded(tops[i as int]));
        let vertex = Attribute {
            space_coord_px: Vec3 { x: a.space_coord_px.x, y: style.height_px, z: a.space_coord_px.y },
            tex_coord_px: Vec2 {
                x: a.tex_offset_px.x + style.top_tex_top_left_px.x,
                y: a.tex_offset_px.y + style.top_tex_top_left_px.y,
            },
        };
        vertices.push(vertex);
        i = i + 1;
        assert(vertices@ =~= tops.take(i as int).map_values(|t: TopAttribute| top_vertex(t, *style)));
    }
    let r = RelativeBuffers { attributes: vertices, indices };
    assert(tops.take(tops.len() as int) =~= tops);
    assert(r@.attributes =~= top_model(piece, *style, *config).attributes);
    assert(r@.indices =~= top_model(piece, *style, *config).indices);
    r
}

/// The mesh of a piece in its quadrant frame: the top, then the wall side.
pub fn make_geometry(piece: Piece, style: &Style, config: &Config) -> (r: RelativeBuffers)
    requires
        style.wf(),
        config.wf(),
    ensures
        r@ == piece_model(piece, *style, *config),
        indices_in_range(r@),
{
    let top = make_top(piece, style, config);
    let faces = make_faces(piece, style, config);
    proof {
        lemma_piece_in_range(piece, *style, *config);
    }
    top.concat(&faces)
}

/// Every index of a piece's mesh refers to one of its vertices, whatever
/// the piece.
pub proof fn lemma_piece_in_range(piece: Piece, style: Style, config: Config)
    ensures
        indices_in_range(top_model(piece, style, config)),
        indices_in_range(faces_model(piece, style, config)),
        indices_in_range(piece_model(piece, style, config)),
        piece_model(piece, style, config).attributes.len() <= 12,
{
    let t = top_model(piece, style, config);
    let f = faces_model(piece, style, config);
    assert forall|i: int| 0 <= i < t.indices.len() implies 0 <= #[trigger] t.indices[i]
        < t.attributes.len() by {
        assert(t.indices[i] == top_indices(piece)[i] as int);
    }
    assert forall|i: int| 0 <= i < f.indices.len() implies 0 <= #[trigger] f.indices[i]
        < f.attributes.len() by {
        assert(f.indices[i] == edge_indices_of(piece)[i] as int);
    }
    crate::mesh::lemma_cat_in_range(t, f);
}

/// Every vertex of a piece's mesh lies within a style value of the quadrant
/// frame's origin, whatever the piece.
pub proof fn lemma_piece_positions_bounded(piece: Piece, style: Style, config: Config)
    requires
        style.wf(),
        config.wf(),
    ensures
        positions_bounded(piece_model(piece, style, config)),
{
    let t = top_model(piece, style, config);
    let f = faces_model(piece, style, config);
    let m = piece_model(piece, style, config);
    let s = config.cell_size_px as int;
    let w = style.width_px as int;
    assert forall|i: int| 0 <= i < m.attributes.len() implies bounded(
        #[trigger] m.attributes[i].space_coord_px,
    ) by {
        if i < t.attributes.len() {
            let p = top_points(piece, s, w)[i];
            assert(m.attributes[i] == t.attributes[i]);
            assert(px_ok(p.x) && px_ok(p.y));
        } else {
            let j = i - t.attributes.len();
            let e = edge_base_of(piece, s, w)[j / 2];
            assert(m.attributes[i] == f.attributes[j]);
            assert(px_ok(e.space_coord_px.x) && px_ok(e.space_coord_px.y));
        }
    }
}

} // verus!
