//! Reconstruction of the dense board from the sparse list of fetched tiles, and
//! the choice of what each cell of the board shows.
use crate::components::{Game, Tile};
use vstd::prelude::*;

verus! {

/// One cell of the reconstructed board.
#[derive(Clone, Copy, Debug, PartialEq, Eq, Structural)]
pub enum Cell {
    /// No tile was fetched for this cell.
    Unknown,
    /// The last tile fetched for this cell.
    Known(Tile),
}

/// A `size` by `size` board, row by row: the cell at `(x, y)` has index `y * size + x`.
#[derive(Clone, Debug)]
pub struct Grid {
    pub size: u16,
    pub cells: Vec<Cell>,
}

/// Index of the cell at `(x, y)` on a board of side `size`.
pub open spec fn cell_index(size: int, x: int, y: int) -> int {
    y * size + x
}

/// The last tile of `tiles` whose coordinates are `(x, y)`, if any.
pub open spec fn last_tile_at(tiles: Seq<Tile>, x: int, y: int) -> Option<Tile>
    decreases tiles.len(),
{
    if tiles.len() == 0 {
        None
    } else if tiles.last().x == x && tiles.last().y == y {
        Some(tiles.last())
    } else {
        last_tile_at(tiles.drop_last(), x, y)
    }
}

/// What the projection puts at `(x, y)`.
pub open spec fn projected_cell(tiles: Seq<Tile>, x: int, y: int) -> Cell {
    match last_tile_at(tiles, x, y) {
        Some(t) => Cell::Known(t),
        None => Cell::Unknown,
    }
}

impl Grid {
    /// The board has exactly `size * size` cells.
    pub open spec fn wf(&self) -> bool {
        self.cells@.len() == self.size * self.size
    }

    /// The cell at `(x, y)`.
    pub open spec fn spec_cell(&self, x: int, y: int) -> Cell {
        self.cells@[cell_index(self.size as int, x, y)]
    }

    /// The cell at `(x, y)`.
    pub fn cell(&self, x: u16, y: u16) -> (r: Cell)
        requires
            self.wf(),
            x < self.size,
            y < self.size,
        ensures
            r == self.spec_cell(x as int, y as int),
    {
        proof {
            lemma_cell_index_bounds(self.size as int, x as int, y as int);
            lemma_board_area(self.size as int);
        }
        self.cells[y as usize * self.size as usize + x as usize]
    }
}

proof fn lemma_cell_index_bounds(size: int, x: int, y: int)
    requires
        0 <= x < size,
        0 <= y < size,
    ensures
        0 <= cell_index(size, x, y) < size * size,
{
    assert(y * size + x < size * size) by (nonlinear_arith)
        requires
            0 <= x < size,
            0 <= y < size,
    ;
    assert(0 <= y * size) by (nonlinear_arith)
        requires
            0 <= y,
            0 <= size,
    ;
}

proof fn lemma_board_area(size: int)
    requires
        0 <= size <= 0xffff,
    ensures
        size * size <= 0xffff * 0xffff,
{
    assert(size * size <= 0xffff * 0xffff) by (nonlinear_arith)
        requires
            0 <= size <= 0xffff,
    ;
}

proof fn lemma_cell_index_injective(size: int, x1: int, y1: int, x2: int, y2: int)
    requires
        0 <= x1 < size,
        0 <= y1 < size,
        0 <= x2 < size,
        0 <= y2 < size,
        cell_index(size, x1, y1) == cell_index(size, x2, y2),
    ensures
        x1 == x2,
        y1 == y2,
{
    assert(y1 == y2) by (nonlinear_arith)
        requires
            0 <= x1 < size,
            0 <= x2 < size,
            y1 * size + x1 == y2 * size + x2,
    ;
}

/// Rebuilds the board of `game` from the fetched tiles. Every cell starts unknown;
/// each tile, in order, overwrites the cell at its coordinates, so a later tile for
/// the same cell wins. Tiles outside the board are ignored.
pub fn project(game: &Game, tiles: &Vec<Tile>) -> (r: Grid)
    ensures
        r.wf(),
        r.size == game.size,
        forall|x: int, y: int|
            0 <= x < game.size && 0 <= y < game.size ==> #[trigger] r.spec_cell(x, y)
                == projected_cell(tiles@, x, y),
{
    let size = game.size;
    proof {
        lemma_board_area(size as int);
    }
    let n = size as usize * size as usize;
    let mut cells: Vec<Cell> = Vec::new();
    let mut k: usize = 0;
    while k < n
        invariant
            k <= n,
            cells@.len() == k,
            forall|i: int| 0 <= i < k ==> cells@[i] == Cell::Unknown,
        decreases n - k,
    {
        cells.push(Cell::Unknown);
        k = k + 1;
    }
    let mut j: usize = 0;
    proof {
        assert forall|x: int, y: int| 0 <= x < size && 0 <= y < size implies cells@[cell_index(
            size as int,
            x,
            y,
        )] == #[trigger] projected_cell(tiles@.take(0), x, y) by {
            lemma_cell_index_bounds(size as int, x, y);
        }
    }
    while j < tiles.len()
        invariant
            n == size * size,
            cells@.len() == n,
            0 <= j <= tiles@.len(),
            size <= 0xffff,
            forall|x: int, y: int|
                0 <= x < size && 0 <= y < size ==> cells@[cell_index(size as int, x, y)]
                    == #[trigger] projected_cell(tiles@.take(j as int), x, y),
        decreases tiles@.len() - j,
    {
        let t = tiles[j];
        let ghost before = cells@;
        if t.x < size && t.y < size {
            proof {
                lemma_cell_index_bounds(size as int, t.x as int, t.y as int);
            }
            let idx = t.y as usize * size as usize + t.x as usize;
            cells.set(idx, Cell::Known(t));
        }
        assert(t.x < size && t.y < size ==> cells@ == before.update(
            cell_index(size as int, t.x as int, t.y as int),
            Cell::Known(t),
        ));
        assert(!(t.x < size && t.y < size) ==> cells@ == before);
        proof {
            let prefix = tiles@.take(j as int + 1);
            assert(prefix.drop_last() =~= tiles@.take(j as int));
            assert(prefix.last() == t);
            assert forall|x: int, y: int| 0 <= x < size && 0 <= y < size implies cells@[cell_index(
                size as int,
                x,
                y,
            )] == #[trigger] projected_cell(prefix, x, y) by {
                lemma_cell_index_bounds(size as int, x, y);
                if t.x == x && t.y == y {
                    assert(last_tile_at(prefix, x, y) == Some(t));
                } else {
                    assert(before[cell_index(size as int, x, y)] == projected_cell(
                        tiles@.take(j as int),
                        x,
                        y,
                    ));
                    assert(last_tile_at(prefix, x, y) == last_tile_at(tiles@.take(j as int), x, y));
                    if t.x < size && t.y < size {
                        if cell_index(size as int, x, y) == cell_index(
                            size as int,
                            t.x as int,
                            t.y as int,
                        ) {
                            lemma_cell_index_injective(size as int, x, y, t.x as int, t.y as int);
                        }
                    }
                    assert(cells@[cell_index(size as int, x, y)] == before[cell_index(
                        size as int,
                        x,
                        y,
                    )]);
                }
            }
        }
        j = j + 1;
    }
    assert(tiles@.take(tiles@.len() as int) =~= tiles@);
    Grid { size, cells }
}

/// A cell that no tile names shows as unknown.
pub proof fn lemma_absent_cell_unknown(tiles: Seq<Tile>, x: int, y: int)
    requires
        forall|i: int| 0 <= i < tiles.len() ==> !(#[trigger] tiles[i].x == x && tiles[i].y == y),
    ensures
        projected_cell(tiles, x, y) == Cell::Unknown,
    decreases tiles.len(),
{
    if tiles.len() > 0 {
        let init = tiles.drop_last();
        assert(!(tiles[tiles.len() - 1].x == x && tiles[tiles.len() - 1].y == y));
        assert forall|i: int| 0 <= i < init.len() implies !(#[trigger] init[i].x == x && init[i].y
            == y) by {
            assert(init[i] == tiles[i]);
        }
        lemma_absent_cell_unknown(init, x, y);
    }
}

/// A cell that exactly one tile names shows that tile.
pub proof fn lemma_single_tile_shown(tiles: Seq<Tile>, k: int, x: int, y: int)
    requires
        0 <= k < tiles.len(),
        tiles[k].x == x,
        tiles[k].y == y,
        forall|i: int|
            0 <= i < tiles.len() && i != k ==> !(#[trigger] tiles[i].x == x && tiles[i].y == y),
    ensures
        projected_cell(tiles, x, y) == Cell::Known(tiles[k]),
    decreases tiles.len(),
{
    let init = tiles.drop_last();
    if k == tiles.len() - 1 {
    } else {
        assert(!(tiles[tiles.len() - 1].x == x && tiles[tiles.len() - 1].y == y));
        assert(init[k] == tiles[k]);
        assert forall|i: int| 0 <= i < init.len() && i != k implies !(#[trigger] init[i].x == x
            && init[i].y == y) by {
            assert(init[i] == tiles[i]);
        }
        lemma_single_tile_shown(init, k, x, y);
    }
}

/// What an explored or hidden cell shows underneath any player marker.
#[derive(Clone, Copy, Debug, PartialEq, Eq, Structural)]
pub enum Mark {
    /// Nothing: the cell is unknown or not explored yet.
    Blank,
    /// The clue of an explored cell, and whether the cell is a hazard.
    Clue { hazard: bool, clue: u8 },
}

/// What one cell of the board shows.
#[derive(Clone, Copy, Debug, PartialEq, Eq, Structural)]
pub enum CellView {
    /// A cell without the player.
    Plain(Mark),
    /// The cell the player stands on while the game is alive.
    Player(Mark),
    /// The cell the player stands on once the game is over.
    Explosion,
}

/// The mark of a cell: the clue once its tile is explored, else blank.
pub open spec fn mark_of(cell: Cell) -> Mark {
    match cell {
        Cell::Known(t) => if t.explored {
            Mark::Clue { hazard: t.mine, clue: t.clue }
        } else {
            Mark::Blank
        },
        Cell::Unknown => Mark::Blank,
    }
}

/// What the cell `cell` at `(x, y)` shows in `game`.
pub open spec fn view_of(game: Game, cell: Cell, x: int, y: int) -> CellView {
    if game.x == x && game.y == y {
        if game.status {
            CellView::Player(mark_of(cell))
        } else {
            CellView::Explosion
        }
    } else {
        CellView::Plain(mark_of(cell))
    }
}

/// Glyphs of the clues zero to nine on a safe cell.
pub open spec fn safe_clue_glyphs() -> Seq<char> {
    seq!['⓪', '①', '②', '③', '④', '⑤', '⑥', '⑦', '⑧', '⑨']
}

/// Glyphs of the clues zero to nine on a hazardous cell.
pub open spec fn hazard_clue_glyphs() -> Seq<char> {
    seq!['⓿', '❶', '❷', '❸', '❹', '❺', '❻', '❼', '❽', '❾']
}

/// The glyph of a mark: a blank, or the clue drawn from the table that matches the cell.
pub open spec fn mark_glyph_spec(m: Mark) -> char {
    match m {
        Mark::Blank => ' ',
        Mark::Clue { hazard, clue } => if hazard {
            hazard_clue_glyphs()[clue as int]
        } else {
            safe_clue_glyphs()[clue as int]
        },
    }
}

/// A mark whose clue, if any, is at most nine.
pub open spec fn mark_wf(m: Mark) -> bool {
    m matches Mark::Clue { clue, .. } ==> clue <= 9
}

/// The glyph of a mark.
pub fn mark_glyph(m: Mark) -> (r: char)
    requires
        mark_wf(m),
    ensures
        r == mark_glyph_spec(m),
{
    match m {
        Mark::Blank => ' ',
        Mark::Clue { hazard: true, clue } => match clue {
            0 => '⓿',
            1 => '❶',
            2 => '❷',
            3 => '❸',
            4 => '❹',
            5 => '❺',
            6 => '❻',
            7 => '❼',
            8 => '❽',
            _ => '❾',
        },
        Mark::Clue { hazard: false, clue } => match clue {
            0 => '⓪',
            1 => '①',
            2 => '②',
            3 => '③',
            4 => '④',
            5 => '⑤',
            6 => '⑥',
            7 => '⑦',
            8 => '⑧',
            _ => '⑨',
        },
    }
}

/// What the cell at `(x, y)` shows.
pub fn cell_view(game: &Game, grid: &Grid, x: u16, y: u16) -> (r: CellView)
    requires
        grid.wf(),
        x < grid.size,
        y < grid.size,
    ensures
        r == view_of(*game, grid.spec_cell(x as int, y as int), x as int, y as int),
{
    let cell = grid.cell(x, y);
    let mark = match cell {
        Cell::Known(t) => if t.explored {
            Mark::Clue { hazard: t.mine, clue: t.clue }
        } else {
            Mark::Blank
        },
        Cell::Unknown => Mark::Blank,
    };
    if game.x == x && game.y == y {
        if game.status {
            CellView::Player(mark)
        } else {
            CellView::Explosion
        }
    } else {
        CellView::Plain(mark)
    }
}

/// What every cell of the board shows, row by row: `r[y][x]` is the cell at `(x, y)`.
pub fn board_view(game: &Game, grid: &Grid) -> (r: Vec<Vec<CellView>>)
    requires
        grid.wf(),
    ensures
        r@.len() == grid.size,
        forall|y: int| 0 <= y < grid.size ==> (#[trigger] r@[y])@.len() == grid.size,
        forall|x: int, y: int|
            0 <= x < grid.size && 0 <= y < grid.size ==> #[trigger] r@[y]@[x] == view_of(
                *game,
                grid.spec_cell(x, y),
                x,
                y,
            ),
{
    let size = grid.size;
    let mut rows: Vec<Vec<CellView>> = Vec::new();
    let mut y: u16 = 0;
    while y < size
        invariant
            size == grid.size,
            grid.wf(),
            y <= size,
            rows@.len() == y,
            forall|j: int| 0 <= j < y ==> (#[trigger] rows@[j])@.len() == size,
            forall|i: int, j: int|
                0 <= i < size && 0 <= j < y ==> #[trigger] rows@[j]@[i] == view_of(
                    *game,
                    grid.spec_cell(i, j),
                    i,
                    j,
                ),
        decreases size - y,
    {
        let mut row: Vec<CellView> = Vec::new();
        let mut x: u16 = 0;
        while x < size
            invariant
                size == grid.size,
                grid.wf(),
                y < size,
                x <= size,
                row@.len() == x,
                forall|i: int|
                    0 <= i < x ==> #[trigger] row@[i] == view_of(
                        *game,
                        grid.spec_cell(i, y as int),
                        i,
                        y as int,
                    ),
            decreases size - x,
        {
            row.push(cell_view(game, grid, x, y));
            x = x + 1;
        }
        rows.push(row);
        y = y + 1;
    }
    rows
}

} // verus!
