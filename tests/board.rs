use explore_tui::board::{board_view, mark_glyph, project, Cell, CellView, Mark};
use explore_tui::components::{Game, Tile};

fn game(size: u16, x: u16, y: u16, alive: bool) -> Game {
    Game {
        name: String::new(),
        status: alive,
        score: 0,
        seed: [0u8; 32],
        commited_block_timestamp: 0,
        x,
        y,
        level: 1,
        size,
    }
}

fn tile(x: u16, y: u16, explored: bool, mine: bool, clue: u8) -> Tile {
    Tile { explored, mine, danger: false, shield: false, kit: false, clue, x, y }
}

#[test]
fn projection_has_size_squared_cells() {
    let g = game(4, 0, 0, true);
    let grid = project(&g, &vec![]);
    assert_eq!(grid.cells.len(), 16);
    assert!(grid.cells.iter().all(|c| *c == Cell::Unknown));
    let empty = project(&game(0, 0, 0, true), &vec![tile(0, 0, true, false, 1)]);
    assert_eq!(empty.cells.len(), 0);
}

#[test]
fn projection_places_tiles_and_leaves_rest_unknown() {
    let g = game(3, 1, 1, true);
    let t = tile(2, 1, true, false, 4);
    let grid = project(&g, &vec![t]);
    assert_eq!(grid.cell(2, 1), Cell::Known(t));
    assert_eq!(grid.cells[1 * 3 + 2], Cell::Known(t));
    assert_eq!(grid.cell(1, 2), Cell::Unknown);
    assert_eq!(grid.cell(0, 0), Cell::Unknown);
}

#[test]
fn projection_later_duplicate_wins() {
    let g = game(3, 0, 0, true);
    let first = tile(1, 1, false, false, 0);
    let second = tile(1, 1, true, true, 2);
    let grid = project(&g, &vec![first, second]);
    assert_eq!(grid.cell(1, 1), Cell::Known(second));
}

#[test]
fn projection_ignores_out_of_range_tiles() {
    let g = game(2, 0, 0, true);
    let grid = project(&g, &vec![tile(2, 0, true, false, 1), tile(0, 5, true, false, 1)]);
    assert_eq!(grid.cells.len(), 4);
    assert!(grid.cells.iter().all(|c| *c == Cell::Unknown));
}

#[test]
fn glyph_tables() {
    assert_eq!(mark_glyph(Mark::Blank), ' ');
    assert_eq!(mark_glyph(Mark::Clue { hazard: false, clue: 0 }), '⓪');
    assert_eq!(mark_glyph(Mark::Clue { hazard: false, clue: 2 }), '②');
    assert_eq!(mark_glyph(Mark::Clue { hazard: false, clue: 9 }), '⑨');
    assert_eq!(mark_glyph(Mark::Clue { hazard: true, clue: 0 }), '⓿');
    assert_eq!(mark_glyph(Mark::Clue { hazard: true, clue: 3 }), '❸');
    assert_eq!(mark_glyph(Mark::Clue { hazard: true, clue: 9 }), '❾');
}

#[test]
fn board_view_marks_player_and_clues() {
    let g = game(3, 1, 1, true);
    let tiles = vec![tile(0, 0, true, false, 2), tile(1, 1, true, true, 5), tile(2, 2, false, false, 7)];
    let grid = project(&g, &tiles);
    let view = board_view(&g, &grid);
    assert_eq!(view.len(), 3);
    assert!(view.iter().all(|row| row.len() == 3));
    assert_eq!(view[0][0], CellView::Plain(Mark::Clue { hazard: false, clue: 2 }));
    assert_eq!(view[1][1], CellView::Player(Mark::Clue { hazard: true, clue: 5 }));
    assert_eq!(view[2][2], CellView::Plain(Mark::Blank));
    assert_eq!(view[0][2], CellView::Plain(Mark::Blank));
}

#[test]
fn board_view_shows_explosion_when_dead() {
    let g = game(2, 0, 1, false);
    let grid = project(&g, &vec![tile(0, 1, true, true, 1)]);
    let view = board_view(&g, &grid);
    assert_eq!(view[1][0], CellView::Explosion);
    assert_eq!(view[0][0], CellView::Plain(Mark::Blank));
}
