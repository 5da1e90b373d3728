use direction::{CardinalDirection, OrdinalDirection};
use grid_2d::{Grid, ICoord};
use wall_mesh::grid::{cell_at_or_floor, cell_type_of_char, grid_from_terrain, CellType};
use wall_mesh::tiles::{CellDetails, Piece, Quarter};

fn terrain(lines: &[&str]) -> Grid<CellType> {
    let rows: Vec<Vec<char>> = lines.iter().map(|l| l.chars().collect()).collect();
    grid_from_terrain(&rows).expect("valid terrain")
}

fn pieces(d: &CellDetails) -> Vec<Piece> {
    d.quarters.iter().map(|q| q.piece).collect()
}

#[test]
fn both_floor_is_outer() {
    let p = Piece::choose_from(
        (CellType::Floor, CardinalDirection::North),
        (CellType::Floor, CardinalDirection::East),
    );
    assert_eq!(p, Piece::Outer);
}

#[test]
fn both_wall_is_inner() {
    let p = Piece::choose_from(
        (CellType::Wall, CardinalDirection::South),
        (CellType::Wall, CardinalDirection::West),
    );
    assert_eq!(p, Piece::Inner);
}

#[test]
fn floor_clockwise_of_wall_is_right() {
    let p = Piece::choose_from(
        (CellType::Wall, CardinalDirection::North),
        (CellType::Floor, CardinalDirection::East),
    );
    assert_eq!(p, Piece::Right);
}

#[test]
fn floor_counter_clockwise_of_wall_is_left() {
    let p = Piece::choose_from(
        (CellType::Wall, CardinalDirection::East),
        (CellType::Floor, CardinalDirection::North),
    );
    assert_eq!(p, Piece::Left);
}

#[test]
fn choose_is_symmetric_in_its_arguments() {
    let cards = [
        (CardinalDirection::North, CardinalDirection::East),
        (CardinalDirection::East, CardinalDirection::South),
        (CardinalDirection::South, CardinalDirection::West),
        (CardinalDirection::West, CardinalDirection::North),
    ];
    let types = [CellType::Wall, CellType::Floor];
    for (ca, cb) in cards {
        for ta in types {
            for tb in types {
                assert_eq!(
                    Piece::choose_from((ta, ca), (tb, cb)),
                    Piece::choose_from((tb, cb), (ta, ca))
                );
            }
        }
    }
}

#[test]
fn outside_the_grid_is_floor() {
    let g = terrain(&["#"]);
    assert_eq!(cell_at_or_floor(&g, 0, 0), CellType::Wall);
    assert_eq!(cell_at_or_floor(&g, 1, 0), CellType::Floor);
    assert_eq!(cell_at_or_floor(&g, -1, 0), CellType::Floor);
    assert_eq!(cell_at_or_floor(&g, 0, -1), CellType::Floor);
}

#[test]
fn quarter_reads_its_two_sides() {
    let g = terrain(&["##", ".#"]);
    let q = Quarter::from_grid(&g, ICoord { x: 1, y: 1 }, OrdinalDirection::NorthWest);
    assert_eq!(q.piece, Piece::Left);
    let q = Quarter::from_grid(&g, ICoord { x: 1, y: 1 }, OrdinalDirection::NorthEast);
    assert_eq!(q.piece, Piece::Right);
}

#[test]
fn floor_cell_has_no_details() {
    let g = terrain(&["##", ".#"]);
    assert!(CellDetails::from_grid(&g, ICoord { x: 0, y: 1 }).is_none());
    assert!(CellDetails::from_grid(&g, ICoord { x: 5, y: 5 }).is_none());
}

#[test]
fn isolated_wall_has_four_outer_quarters() {
    let g = terrain(&["...", ".#.", "..."]);
    let d = CellDetails::from_grid(&g, ICoord { x: 1, y: 1 }).unwrap();
    assert_eq!(pieces(&d), vec![Piece::Outer; 4]);
    let lone = terrain(&["#"]);
    let d = CellDetails::from_grid(&lone, ICoord { x: 0, y: 0 }).unwrap();
    assert_eq!(pieces(&d), pieces(&CellDetails::outer()));
}

#[test]
fn enclosed_wall_has_four_inner_quarters() {
    let g = terrain(&[".#.", "###", ".#."]);
    let d = CellDetails::from_grid(&g, ICoord { x: 1, y: 1 }).unwrap();
    assert_eq!(pieces(&d), vec![Piece::Inner; 4]);
}

#[test]
fn outer_details_are_all_outer() {
    assert_eq!(pieces(&CellDetails::outer()), vec![Piece::Outer; 4]);
}

#[test]
fn two_by_two_scenario_quarters() {
    let g = terrain(&["##", ".#"]);
    let d = CellDetails::from_grid(&g, ICoord { x: 1, y: 1 }).unwrap();
    assert_eq!(pieces(&d), vec![Piece::Right, Piece::Outer, Piece::Outer, Piece::Left]);
    let d = CellDetails::from_grid(&g, ICoord { x: 1, y: 0 }).unwrap();
    assert_eq!(pieces(&d), vec![Piece::Outer, Piece::Left, Piece::Inner, Piece::Right]);
    let d = CellDetails::from_grid(&g, ICoord { x: 0, y: 0 }).unwrap();
    assert_eq!(pieces(&d), vec![Piece::Left, Piece::Right, Piece::Outer, Piece::Outer]);
}

#[test]
fn terrain_characters() {
    assert_eq!(cell_type_of_char('#'), Some(CellType::Wall));
    assert_eq!(cell_type_of_char('.'), Some(CellType::Floor));
    assert_eq!(cell_type_of_char('x'), None);
}

#[test]
fn terrain_rows_make_a_grid() {
    let g = terrain(&["#..", "..#"]);
    assert_eq!(g.width(), 3);
    assert_eq!(g.height(), 2);
    assert_eq!(cell_at_or_floor(&g, 0, 0), CellType::Wall);
    assert_eq!(cell_at_or_floor(&g, 1, 0), CellType::Floor);
    assert_eq!(cell_at_or_floor(&g, 2, 1), CellType::Wall);
    assert_eq!(cell_at_or_floor(&g, 0, 1), CellType::Floor);
}

#[test]
fn uneven_rows_are_refused() {
    let rows = vec![vec!['#', '#'], vec!['#']];
    assert!(grid_from_terrain(&rows).is_none());
}

#[test]
fn unknown_character_is_refused() {
    let rows = vec![vec!['#', 'x']];
    assert!(grid_from_terrain(&rows).is_none());
}

#[test]
fn no_rows_make_an_empty_grid() {
    let g = grid_from_terrain(&Vec::new()).unwrap();
    assert_eq!(g.width(), 0);
    assert_eq!(g.height(), 0);
}

#[test]
fn same_sides_ignore_directions() {
    let p = Piece::choose_from(
        (CellType::Floor, CardinalDirection::North),
        (CellType::Floor, CardinalDirection::South),
    );
    assert_eq!(p, Piece::Outer);
    let p = Piece::choose_from(
        (CellType::Wall, CardinalDirection::East),
        (CellType::Wall, CardinalDirection::East),
    );
    assert_eq!(p, Piece::Inner);
}

#[test]
fn far_outside_cells_have_no_details() {
    let g = terrain(&["#"]);
    assert!(CellDetails::from_grid(&g, ICoord { x: i32::MAX, y: 0 }).is_none());
    assert!(CellDetails::from_grid(&g, ICoord { x: 0, y: i32::MIN }).is_none());
}
