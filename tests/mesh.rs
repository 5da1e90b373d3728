use direction::OrdinalDirection;
use grid_2d::ICoord;
use wall_mesh::assembly::{build_mesh, move_to_cell_centre, rotate_to_direction};
use wall_mesh::geometry::{
    make_edge_base, make_faces, make_geometry, make_rect_top, make_top, Config, Style,
    TopAttribute,
};
use wall_mesh::grid::grid_from_terrain;
use wall_mesh::mesh::{Attribute, RelativeBuffers, Transform, Vec2, Vec3, YRotation};
use wall_mesh::tiles::Piece;

fn style() -> Style {
    Style {
        width_px: 8,
        height_px: 32,
        face_tex_top_left_px: Vec2 { x: 32, y: 0 },
        top_tex_top_left_px: Vec2 { x: 0, y: 0 },
    }
}

fn config() -> Config {
    Config { cell_size_px: 16 }
}

fn v2(x: i64, y: i64) -> Vec2 {
    Vec2 { x, y }
}

fn v3(x: i64, y: i64, z: i64) -> Vec3 {
    Vec3 { x, y, z }
}

fn attr(p: Vec3, t: Vec2) -> Attribute {
    Attribute { space_coord_px: p, tex_coord_px: t }
}

fn buffers(n: i64, indices: Vec<u32>) -> RelativeBuffers {
    let attributes = (0..n).map(|i| attr(v3(i, 0, 0), v2(i, i))).collect();
    RelativeBuffers { attributes, indices }
}

fn grid(lines: &[&str]) -> grid_2d::Grid<wall_mesh::grid::CellType> {
    let rows: Vec<Vec<char>> = lines.iter().map(|l| l.chars().collect()).collect();
    grid_from_terrain(&rows).unwrap()
}

#[test]
fn concat_shifts_second_indices() {
    let a = buffers(3, vec![0, 1, 2]);
    let b = buffers(2, vec![1, 0, 1]);
    let c = a.concat(&b);
    assert_eq!(c.attributes.len(), 5);
    assert_eq!(c.attributes[3], b.attributes[0]);
    assert_eq!(c.indices, vec![0, 1, 2, 4, 3, 4]);
}

#[test]
fn concat_with_empty_first_keeps_indices() {
    let a = buffers(0, vec![]);
    let b = buffers(2, vec![1, 0]);
    let c = a.concat(&b);
    assert_eq!(c.indices, vec![1, 0]);
    assert_eq!(c.attributes, b.attributes);
}

#[test]
fn concat_is_associative() {
    let a = buffers(3, vec![0, 1, 2]);
    let b = buffers(1, vec![0, 0, 0]);
    let c = buffers(4, vec![3, 2, 1, 0]);
    let left = a.concat(&b).concat(&c);
    let right = a.concat(&b.concat(&c));
    assert_eq!(left.attributes, right.attributes);
    assert_eq!(left.indices, right.indices);
    assert_eq!(left.indices, vec![0, 1, 2, 3, 3, 3, 7, 6, 5, 4]);
}

#[test]
fn concat_all_matches_pairwise_concat() {
    let parts = vec![
        buffers(3, vec![0, 1, 2]),
        buffers(1, vec![0, 0, 0]),
        buffers(4, vec![3, 2, 1, 0]),
    ];
    let pairwise = parts[0].concat(&parts[1]).concat(&parts[2]);
    let all = RelativeBuffers::concat_all(parts);
    assert_eq!(all.attributes, pairwise.attributes);
    assert_eq!(all.indices, pairwise.indices);
}

#[test]
fn concat_all_of_nothing_is_empty() {
    let all = RelativeBuffers::concat_all(Vec::new());
    assert!(all.attributes.is_empty());
    assert!(all.indices.is_empty());
}

#[test]
fn transform_rotates_then_translates() {
    let b = RelativeBuffers {
        attributes: vec![attr(v3(1, 2, 3), v2(5, 6))],
        indices: vec![0, 0, 0],
    };
    let t = Transform { rotation: YRotation::Deg90, translation: v3(10, 20, 30) };
    let r = b.transform(t);
    assert_eq!(r.attributes, vec![attr(v3(13, 22, 29), v2(5, 6))]);
    assert_eq!(r.indices, vec![0, 0, 0]);
}

#[test]
fn each_rotation_turns_a_point() {
    let p = v3(1, 2, 3);
    let zero = v3(0, 0, 0);
    let at = |rotation| Transform { rotation, translation: zero }.apply(p);
    assert_eq!(at(YRotation::Deg0), v3(1, 2, 3));
    assert_eq!(at(YRotation::Deg90), v3(3, 2, -1));
    assert_eq!(at(YRotation::Deg180), v3(-1, 2, -3));
    assert_eq!(at(YRotation::DegMinus90), v3(-3, 2, 1));
}

#[test]
fn transform_keeps_index_array() {
    let g = make_geometry(Piece::Inner, &style(), &config());
    let indices = g.indices.clone();
    let t = Transform { rotation: YRotation::Deg180, translation: v3(24, 0, 40) };
    let moved = g.transform(t);
    assert_eq!(moved.indices, indices);
    assert_eq!(moved.attributes[0].space_coord_px, v3(24, 32, 24));
}

#[test]
fn inner_edge_base_profile() {
    let (base, indices) = make_edge_base(Piece::Inner, &style(), &config());
    let offsets: Vec<i64> = base.iter().map(|b| b.face_tex_offset_px_x).collect();
    let points: Vec<Vec2> = base.iter().map(|b| b.space_coord_px).collect();
    assert_eq!(offsets, vec![0, 8, 16]);
    assert_eq!(points, vec![v2(16, 8), v2(8, 8), v2(8, 16)]);
    assert_eq!(indices, vec![0, 1, 2, 1, 3, 2, 2, 3, 4, 3, 5, 4]);
}

#[test]
fn outer_edge_base_profile() {
    let (base, indices) = make_edge_base(Piece::Outer, &style(), &config());
    let offsets: Vec<i64> = base.iter().map(|b| b.face_tex_offset_px_x).collect();
    let points: Vec<Vec2> = base.iter().map(|b| b.space_coord_px).collect();
    assert_eq!(offsets, vec![0, 8, 16]);
    assert_eq!(points, vec![v2(0, 8), v2(8, 8), v2(0, 8)]);
    assert_eq!(indices.len(), 12);
}

#[test]
fn right_edge_base_profile() {
    let (base, indices) = make_edge_base(Piece::Right, &style(), &config());
    let points: Vec<Vec2> = base.iter().map(|b| b.space_coord_px).collect();
    assert_eq!(points, vec![v2(8, 0), v2(8, 16)]);
    assert_eq!(base[1].face_tex_offset_px_x, 16);
    assert_eq!(indices, vec![0, 1, 2, 1, 3, 2]);
}

#[test]
fn left_faces_alternate_foot_and_top() {
    let f = make_faces(Piece::Left, &style(), &config());
    assert_eq!(
        f.attributes,
        vec![
            attr(v3(16, 0, 8), v2(32, 32)),
            attr(v3(16, 32, 8), v2(32, 0)),
            attr(v3(0, 0, 8), v2(48, 32)),
            attr(v3(0, 32, 8), v2(48, 0)),
        ]
    );
    assert_eq!(f.indices, vec![0, 1, 2, 1, 3, 2]);
}

#[test]
fn top_attribute_flips_y_for_texture() {
    let t = TopAttribute::new(v2(16, 16), v2(8, 4));
    assert_eq!(t.tex_offset_px, v2(24, 12));
    assert_eq!(t.space_coord_px, v2(8, 4));
}

#[test]
fn rect_top_corners() {
    let (tops, indices) = make_rect_top(v2(8, 16), v2(0, 16));
    let points: Vec<Vec2> = tops.iter().map(|t| t.space_coord_px).collect();
    let tex: Vec<Vec2> = tops.iter().map(|t| t.tex_offset_px).collect();
    assert_eq!(points, vec![v2(0, 0), v2(0, 16), v2(8, 16), v2(8, 0)]);
    assert_eq!(tex, vec![v2(0, 16), v2(0, 0), v2(8, 0), v2(8, 16)]);
    assert_eq!(indices, vec![0, 1, 2, 0, 2, 3]);
}

#[test]
fn inner_top_fan() {
    let t = make_top(Piece::Inner, &style(), &config());
    let points: Vec<Vec3> = t.attributes.iter().map(|a| a.space_coord_px).collect();
    let tex: Vec<Vec2> = t.attributes.iter().map(|a| a.tex_coord_px).collect();
    assert_eq!(
        points,
        vec![v3(0, 32, 16), v3(8, 32, 16), v3(8, 32, 8), v3(0, 32, 0), v3(16, 32, 0), v3(16, 32, 8)]
    );
    assert_eq!(tex, vec![v2(16, 0), v2(24, 0), v2(24, 8), v2(16, 16), v2(32, 16), v2(32, 8)]);
    assert_eq!(t.indices, vec![0, 1, 2, 0, 2, 3, 2, 4, 3, 2, 5, 4]);
}

#[test]
fn outer_top_uses_its_atlas_region() {
    let mut s = style();
    s.top_tex_top_left_px = v2(100, 200);
    let t = make_top(Piece::Outer, &s, &config());
    assert_eq!(t.attributes[0], attr(v3(0, 32, 0), v2(100, 232)));
    assert_eq!(t.attributes[2], attr(v3(8, 32, 8), v2(108, 224)));
}

#[test]
fn piece_geometry_sizes_and_index_ranges() {
    let expected = [
        (Piece::Inner, 12, 24),
        (Piece::Outer, 10, 18),
        (Piece::Left, 8, 12),
        (Piece::Right, 8, 12),
    ];
    for (piece, n_attributes, n_indices) in expected {
        let g = make_geometry(piece, &style(), &config());
        assert_eq!(g.attributes.len(), n_attributes);
        assert_eq!(g.indices.len(), n_indices);
        assert!(g.indices.iter().all(|&i| (i as usize) < g.attributes.len()));
    }
}

#[test]
fn geometry_puts_faces_after_top() {
    let g = make_geometry(Piece::Left, &style(), &config());
    assert_eq!(&g.indices[6..], &[4, 5, 6, 5, 7, 6]);
    assert_eq!(g.attributes[4], attr(v3(16, 0, 8), v2(32, 32)));
}

#[test]
fn cell_centre_translation() {
    let c = move_to_cell_centre(ICoord { x: 1, y: 2 }, &config());
    assert_eq!(c, v3(24, 0, 40));
}

#[test]
fn quadrant_rotations() {
    assert_eq!(rotate_to_direction(OrdinalDirection::NorthEast), YRotation::Deg0);
    assert_eq!(rotate_to_direction(OrdinalDirection::SouthEast), YRotation::Deg90);
    assert_eq!(rotate_to_direction(OrdinalDirection::SouthWest), YRotation::Deg180);
    assert_eq!(rotate_to_direction(OrdinalDirection::NorthWest), YRotation::DegMinus90);
}

#[test]
fn cell_geometry_places_each_quarter() {
    let g = grid(&["#"]);
    let d = wall_mesh::tiles::CellDetails::from_grid(&g, ICoord { x: 0, y: 0 }).unwrap();
    let parts = d.make_geometry(ICoord { x: 0, y: 0 }, &style(), &config());
    assert_eq!(parts.len(), 4);
    // The outer piece's first top vertex sits at the quadrant origin, which
    // every quarter moves to the cell centre.
    for p in &parts {
        assert_eq!(p.attributes[0].space_coord_px, v3(8, 32, 8));
        assert_eq!(p.indices.len(), 18);
    }
    // The third top vertex (w, w) turns with its quadrant.
    assert_eq!(parts[0].attributes[2].space_coord_px, v3(16, 32, 16));
    assert_eq!(parts[1].attributes[2].space_coord_px, v3(16, 32, 0));
    assert_eq!(parts[2].attributes[2].space_coord_px, v3(0, 32, 0));
    assert_eq!(parts[3].attributes[2].space_coord_px, v3(0, 32, 16));
}

#[test]
fn two_by_two_scenario_mesh() {
    let g = grid(&["##", ".#"]);
    let m = build_mesh(&g, &style(), &config()).unwrap();
    // Cells (0,0), (1,0) and (1,1) are walls: 12 quarters in all.
    assert_eq!(m.indices.len(), 60 + 66 + 60);
    assert_eq!(m.attributes.len(), 36 + 38 + 36);
    assert!(m.indices.iter().all(|&i| (i as usize) < m.attributes.len()));
    assert_eq!(m.indices.iter().max(), Some(&109));
}

#[test]
fn floor_only_grid_has_empty_mesh() {
    let g = grid(&["...", "..."]);
    let m = build_mesh(&g, &style(), &config()).unwrap();
    assert!(m.attributes.is_empty());
    assert!(m.indices.is_empty());
}

#[test]
fn building_twice_gives_identical_buffers() {
    let g = grid(&["#.##", "##.#", "...#"]);
    let a = build_mesh(&g, &style(), &config()).unwrap();
    let b = build_mesh(&g, &style(), &config()).unwrap();
    assert_eq!(a.attributes, b.attributes);
    assert_eq!(a.indices, b.indices);
}
