//! The rules of the game over the mathematical grid.
//!
//! A grid is a `Seq<Seq<Cell>>`: `g[column][row]`, row 0 at the bottom.

use vstd::prelude::*;

verus! {

/// Number of columns of the grid.
pub const COLUMNS: usize = 7;

/// Number of rows of the grid.
pub const ROWS: usize = 6;

/// Number of cells of the grid.
pub const CELLS: usize = 42;

/// Number of characters in one line of the rendering: a glyph for each column
/// and the line feed.
pub const LINE_WIDTH: usize = 8;

/// The two players, named by the colour of their pieces.
#[derive(Clone, Copy, Debug, PartialEq, Eq, Structural)]
pub enum Colour {
    Red,
    Blue,
}

/// The player who moves after `player`.
pub open spec fn opponent(player: Colour) -> Colour {
    match player {
        Colour::Red => Colour::Blue,
        Colour::Blue => Colour::Red,
    }
}

impl Colour {
    /// The other player.
    pub fn other(self) -> (other: Colour)
        ensures
            other == opponent(self),
    {
        match self {
            Colour::Red => Colour::Blue,
            Colour::Blue => Colour::Red,
        }
    }
}

/// What a cell of the grid holds.
#[derive(Clone, Copy, Debug, PartialEq, Eq, Structural)]
pub enum Cell {
    Empty,
    Occupied(Colour),
}

/// Why a board refused a request.
#[derive(Clone, Copy, Debug, PartialEq, Eq, Structural)]
pub enum BoardError {
    /// Every row of the column already holds a piece.
    ColumnFull,
    /// The column index is not below [`COLUMNS`].
    InvalidColumn,
}

/// The grid as contracts see it: columns of cells, bottom row first.
pub type Grid = Seq<Seq<Cell>>;

/// `(column, row)` names a cell of the grid.
pub open spec fn in_grid(column: int, row: int) -> bool {
    0 <= column < COLUMNS && 0 <= row < ROWS
}

/// The grid with no piece on it.
pub open spec fn empty_grid() -> Grid {
    Seq::new(COLUMNS as nat, |c: int| Seq::new(ROWS as nat, |r: int| Cell::Empty))
}

/// The grid has the fixed shape, and no piece floats: below an occupied cell
/// every cell of the column is occupied.
pub open spec fn well_formed(g: Grid) -> bool {
    &&& g.len() == COLUMNS
    &&& forall|c: int| 0 <= c < COLUMNS ==> (#[trigger] g[c]).len() == ROWS
    &&& forall|c: int, lo: int, hi: int|
        0 <= c < COLUMNS && 0 <= lo < hi < ROWS && #[trigger] g[c][hi] != Cell::Empty
            ==> #[trigger] g[c][lo] != Cell::Empty
}

/// The first index at or above `from` at which `column` is empty, or the
/// column's length when there is none.
pub open spec fn first_empty(column: Seq<Cell>, from: int) -> int
    decreases column.len() - from,
{
    if from >= column.len() || column[from] == Cell::Empty {
        from
    } else {
        first_empty(column, from + 1)
    }
}

/// The row at which a piece dropped into `column` comes to rest: the lowest
/// empty row, or [`ROWS`] when the column is full.
pub open spec fn free_row(g: Grid, column: int) -> int {
    first_empty(g[column], 0)
}

/// The grid with `cell` written at `(column, row)`.
pub open spec fn place(g: Grid, column: int, row: int, cell: Cell) -> Grid {
    g.update(column, g[column].update(row, cell))
}

/// What a drop into `column` returns: the landing row, or the reason for
/// which nothing was dropped.
pub open spec fn drop_outcome(g: Grid, column: int) -> Result<usize, BoardError> {
    if !(0 <= column < COLUMNS) {
        Err(BoardError::InvalidColumn)
    } else if free_row(g, column) >= ROWS {
        Err(BoardError::ColumnFull)
    } else {
        Ok(free_row(g, column) as usize)
    }
}

/// The grid after `player` has dropped a piece into `column`: the landing
/// cell is filled where the drop succeeds, and nothing changes where it fails.
pub open spec fn after_drop(g: Grid, column: int, player: Colour) -> Grid {
    if drop_outcome(g, column) is Ok {
        place(g, column, free_row(g, column), Cell::Occupied(player))
    } else {
        g
    }
}

/// Number of pieces on a well-formed grid: the free rows of its columns,
/// added up.
pub open spec fn pieces(g: Grid) -> int {
    free_row(g, 0) + free_row(g, 1) + free_row(g, 2) + free_row(g, 3) + free_row(g, 4) + free_row(
        g,
        5,
    ) + free_row(g, 6)
}

/// `(column, row)` is a cell of the grid and holds a piece of `player`.
pub open spec fn owns(g: Grid, column: int, row: int, player: Colour) -> bool {
    in_grid(column, row) && g[column][row] == Cell::Occupied(player)
}

/// The four cells from `(column, row)` onward by steps of `(dc, dr)` all hold
/// a piece of `player`.
pub open spec fn four_from(g: Grid, column: int, row: int, dc: int, dr: int, player: Colour) -> bool {
    &&& owns(g, column, row, player)
    &&& owns(g, column + dc, row + dr, player)
    &&& owns(g, column + 2 * dc, row + 2 * dr, player)
    &&& owns(g, column + 3 * dc, row + 3 * dr, player)
}

/// Four pieces of `player` in a row along `(dc, dr)`, `(column, row)` being
/// one of the four.
pub open spec fn line_through(g: Grid, column: int, row: int, dc: int, dr: int, player: Colour) -> bool {
    ||| four_from(g, column, row, dc, dr, player)
    ||| four_from(g, column - dc, row - dr, dc, dr, player)
    ||| four_from(g, column - 2 * dc, row - 2 * dr, dc, dr, player)
    ||| four_from(g, column - 3 * dc, row - 3 * dr, dc, dr, player)
}

/// `(column, row)` lies on a line of four pieces of `player`: across, upright
/// or along one of the two diagonals.
pub open spec fn on_line_of_four(g: Grid, column: int, row: int, player: Colour) -> bool {
    ||| line_through(g, column, row, 1, 0, player)
    ||| line_through(g, column, row, 0, 1, player)
    ||| line_through(g, column, row, 1, 1, player)
    ||| line_through(g, column, row, 1, -1, player)
}

/// The player whose topmost piece in `column` lies on a line of four, if that
/// piece does. An empty column, or one outside the grid, has no winner.
pub open spec fn winner_at(g: Grid, column: int) -> Option<Colour> {
    if 0 <= column < COLUMNS && 0 < free_row(g, column) {
        match g[column][free_row(g, column) - 1] {
            Cell::Occupied(player) => if on_line_of_four(
                g,
                column,
                free_row(g, column) - 1,
                player,
            ) {
                Some(player)
            } else {
                None
            },
            Cell::Empty => None,
        }
    } else {
        None
    }
}

/// How many cells in a row hold a piece of `player`, walking away from
/// `(column, row)` by steps of `(dc, dr)`: the start is not counted, and the
/// walk ends after `limit` cells.
pub open spec fn run(
    g: Grid,
    column: int,
    row: int,
    dc: int,
    dr: int,
    player: Colour,
    limit: nat,
) -> nat
    decreases limit,
{
    if limit == 0 || !owns(g, column + dc, row + dr, player) {
        0
    } else {
        1 + run(g, column + dc, row + dr, dc, dr, player, (limit - 1) as nat)
    }
}

/// The grid with the topmost piece of `column` moved `frame` rows below the
/// row on which it rests: that row is shown empty, the piece is shown over
/// whatever the lower cell holds, and no other cell differs.
pub open spec fn displaced(g: Grid, column: int, frame: int) -> Grid {
    let rest = free_row(g, column) - 1;
    g.update(column, g[column].update(rest, Cell::Empty).update(rest - frame, g[column][rest]))
}

/// The grid that frame number `frame` of a fall shows. The falling piece is
/// the topmost piece of `column`, the column of the last drop, and the frames
/// before the one that bears the number of its resting row show it displaced
/// by `frame` rows. From that frame on, and where nothing has been dropped
/// or the column is empty, the frame shows the grid itself.
pub open spec fn frame_grid(g: Grid, column: Option<usize>, frame: int) -> Grid {
    match column {
        Some(column) => if column < COLUMNS && 0 <= frame < free_row(g, column as int) - 1 {
            displaced(g, column as int, frame)
        } else {
            g
        },
        None => g,
    }
}

/// The character that stands for a cell.
pub open spec fn glyph(cell: Cell) -> char {
    match cell {
        Cell::Empty => '.',
        Cell::Occupied(Colour::Red) => 'R',
        Cell::Occupied(Colour::Blue) => 'B',
    }
}

/// The glyphs of the cells of `row`, from the first column to the last.
pub open spec fn row_text(g: Grid, row: int) -> Seq<char> {
    Seq::new(COLUMNS as nat, |c: int| glyph(g[c][row]))
}

/// The text of a grid: one line for each row, the top row first, each line
/// holding the glyphs of its cells from the first column to the last and
/// ending in a line feed.
pub open spec fn rendering(g: Grid) -> Seq<char> {
    Seq::new(
        (ROWS * LINE_WIDTH) as nat,
        |i: int|
            if i % (LINE_WIDTH as int) == COLUMNS {
                '\n'
            } else {
                glyph(g[i % (LINE_WIDTH as int)][ROWS - 1 - i / (LINE_WIDTH as int)])
            },
    )
}

/// What [`first_empty`] finds: everything between `from` and the result is
/// occupied, and the result, if it is in the column, is empty.
pub proof fn lemma_first_empty(column: Seq<Cell>, from: int)
    requires
        0 <= from <= column.len(),
    ensures
        from <= first_empty(column, from) <= column.len(),
        forall|k: int| from <= k < first_empty(column, from) ==> column[k] != Cell::Empty,
        first_empty(column, from) < column.len() ==> column[first_empty(column, from)]
            == Cell::Empty,
    decreases column.len() - from,
{
    if from < column.len() && column[from] != Cell::Empty {
        lemma_first_empty(column, from + 1);
    }
}

/// On a well-formed grid the free row parts a column in two: occupied below
/// it, empty from it upward.
pub proof fn lemma_free_row(g: Grid, column: int)
    requires
        well_formed(g),
        0 <= column < COLUMNS,
    ensures
        0 <= free_row(g, column) <= ROWS,
        forall|r: int| 0 <= r < ROWS ==> (#[trigger] g[column][r] != Cell::Empty <==> r < free_row(
            g,
            column,
        )),
{
    lemma_first_empty(g[column], 0);
    let free = free_row(g, column);
    assert forall|r: int| 0 <= r < ROWS implies (#[trigger] g[column][r] != Cell::Empty <==> r
        < free) by {
        if r > free {
            assert(g[column][free] == Cell::Empty);
        }
    }
}

/// The converse of [`lemma_first_empty`]: an empty cell at `at`, or the end of
/// the column there, with nothing empty between `from` and it, is what
/// [`first_empty`] finds.
pub proof fn lemma_first_empty_is(column: Seq<Cell>, from: int, at: int)
    requires
        0 <= from <= at <= column.len(),
        forall|k: int| from <= k < at ==> column[k] != Cell::Empty,
        at < column.len() ==> column[at] == Cell::Empty,
    ensures
        first_empty(column, from) == at,
    decreases at - from,
{
    if from < at {
        lemma_first_empty_is(column, from + 1, at);
    }
}

/// A successful drop keeps the grid well formed, raises the free row of its
/// column by one and leaves every other cell as it was.
pub proof fn lemma_after_drop(g: Grid, column: int, player: Colour)
    requires
        well_formed(g),
        drop_outcome(g, column) is Ok,
    ensures
        well_formed(after_drop(g, column, player)),
        free_row(after_drop(g, column, player), column) == free_row(g, column) + 1,
        after_drop(g, column, player)[column][free_row(g, column)] == Cell::Occupied(player),
        forall|c: int, r: int|
            in_grid(c, r) && !(c == column && r == free_row(g, column)) ==> #[trigger] after_drop(
                g,
                column,
                player,
            )[c][r] == g[c][r],
        forall|c: int|
            0 <= c < COLUMNS && c != column ==> #[trigger] free_row(
                after_drop(g, column, player),
                c,
            ) == free_row(g, c),
{
    let row = free_row(g, column);
    let h = after_drop(g, column, player);
    lemma_free_row(g, column);
    assert(h.len() == COLUMNS);
    assert forall|c: int| 0 <= c < COLUMNS implies (#[trigger] h[c]).len() == ROWS by {
        assert(g[c].len() == ROWS);
    }
    assert forall|c: int, lo: int, hi: int|
        0 <= c < COLUMNS && 0 <= lo < hi < ROWS && #[trigger] h[c][hi]
            != Cell::Empty implies #[trigger] h[c][lo] != Cell::Empty by {
        assert(g[c].len() == ROWS);
        if c == column {
            if lo != row {
                if hi != row {
                    assert(g[c][hi] != Cell::Empty);
                }
                assert(g[c][lo] != Cell::Empty);
            }
        } else {
            assert(g[c][hi] != Cell::Empty);
            assert(g[c][lo] != Cell::Empty);
        }
    }
    assert forall|k: int| 0 <= k < row + 1 implies h[column][k] != Cell::Empty by {
        if k < row {
            assert(g[column][k] != Cell::Empty);
        }
    }
    if row + 1 < ROWS {
        assert(g[column][row + 1] == Cell::Empty);
    }
    lemma_first_empty_is(h[column], 0, row + 1);
    assert forall|c: int| 0 <= c < COLUMNS && c != column implies #[trigger] free_row(h, c)
        == free_row(g, c) by {
        assert(h[c] == g[c]);
    }
}

/// A well-formed grid holds between no piece and [`CELLS`] pieces, and a
/// successful drop adds one.
pub proof fn lemma_pieces(g: Grid)
    requires
        well_formed(g),
    ensures
        0 <= pieces(g) <= CELLS,
        forall|column: int, player: Colour|
            drop_outcome(g, column) is Ok ==> #[trigger] pieces(after_drop(g, column, player))
                == pieces(g) + 1,
        pieces(g) == CELLS ==> forall|column: int| #[trigger] drop_outcome(g, column) is Err,
{
    lemma_free_row(g, 0);
    lemma_free_row(g, 1);
    lemma_free_row(g, 2);
    lemma_free_row(g, 3);
    lemma_free_row(g, 4);
    lemma_free_row(g, 5);
    lemma_free_row(g, 6);
    assert forall|column: int, player: Colour| drop_outcome(g, column) is Ok implies #[trigger] pieces(
        after_drop(g, column, player),
    ) == pieces(g) + 1 by {
        lemma_after_drop(g, column, player);
    }
}

/// A run of at most three, cell by cell: it ends before the first cell that
/// is not `player`'s.
pub proof fn lemma_run_of_three(g: Grid, column: int, row: int, dc: int, dr: int, player: Colour)
    ensures
        run(g, column, row, dc, dr, player, 3) == if !owns(g, column + dc, row + dr, player) {
            0nat
        } else if !owns(g, column + 2 * dc, row + 2 * dr, player) {
            1nat
        } else if !owns(g, column + 3 * dc, row + 3 * dr, player) {
            2nat
        } else {
            3nat
        },
{
    let (c1, r1) = (column + dc, row + dr);
    let (c2, r2) = (c1 + dc, r1 + dr);
    let (c3, r3) = (c2 + dc, r2 + dr);
    assert(c2 == column + 2 * dc && r2 == row + 2 * dr);
    assert(c3 == column + 3 * dc && r3 == row + 3 * dr);
    assert(run(g, c2, r2, dc, dr, player, 1) == if owns(g, c3, r3, player) {
        1nat
    } else {
        0nat
    }) by {
        reveal_with_fuel(run, 2);
    }
    assert(run(g, c1, r1, dc, dr, player, 2) == if owns(g, c2, r2, player) {
        1 + run(g, c2, r2, dc, dr, player, 1)
    } else {
        0nat
    });
    assert(run(g, column, row, dc, dr, player, 3) == if owns(g, c1, r1, player) {
        1 + run(g, c1, r1, dc, dr, player, 2)
    } else {
        0nat
    });
}

/// A piece lies on a line of four along a direction exactly when the runs of
/// its colour on its two sides, three cells being enough on each, make four
/// together with the piece itself.
pub proof fn lemma_runs_make_line(g: Grid, column: int, row: int, dc: int, dr: int, player: Colour)
    requires
        owns(g, column, row, player),
    ensures
        line_through(g, column, row, dc, dr, player) <==> 1 + run(g, column, row, dc, dr, player, 3)
            + run(g, column, row, -dc, -dr, player, 3) >= 4,
{
    lemma_run_of_three(g, column, row, dc, dr, player);
    lemma_run_of_three(g, column, row, -dc, -dr, player);
    let ahead1 = owns(g, column + dc, row + dr, player);
    let ahead2 = owns(g, column + 2 * dc, row + 2 * dr, player);
    let ahead3 = owns(g, column + 3 * dc, row + 3 * dr, player);
    let behind1 = owns(g, column - dc, row - dr, player);
    let behind2 = owns(g, column - 2 * dc, row - 2 * dr, player);
    let behind3 = owns(g, column - 3 * dc, row - 3 * dr, player);
    assert(behind1 == owns(g, column + (-dc), row + (-dr), player));
    assert(behind2 == owns(g, column + 2 * (-dc), row + 2 * (-dr), player));
    assert(behind3 == owns(g, column + 3 * (-dc), row + 3 * (-dr), player));
    assert(four_from(g, column, row, dc, dr, player) == (ahead1 && ahead2 && ahead3));
    assert(four_from(g, column - dc, row - dr, dc, dr, player) == (behind1 && ahead1 && ahead2)) by {
        assert(column - dc + dc == column && row - dr + dr == row);
        assert(column - dc + 2 * dc == column + dc && row - dr + 2 * dr == row + dr);
        assert(column - dc + 3 * dc == column + 2 * dc && row - dr + 3 * dr == row + 2 * dr);
    }
    assert(four_from(g, column - 2 * dc, row - 2 * dr, dc, dr, player) == (behind2 && behind1
        && ahead1)) by {
        assert(column - 2 * dc + dc == column - dc && row - 2 * dr + dr == row - dr);
        assert(column - 2 * dc + 2 * dc == column && row - 2 * dr + 2 * dr == row);
        assert(column - 2 * dc + 3 * dc == column + dc && row - 2 * dr + 3 * dr == row + dr);
    }
    assert(four_from(g, column - 3 * dc, row - 3 * dr, dc, dr, player) == (behind3 && behind2
        && behind1)) by {
        assert(column - 3 * dc + dc == column - 2 * dc && row - 3 * dr + dr == row - 2 * dr);
        assert(column - 3 * dc + 2 * dc == column - dc && row - 3 * dr + 2 * dr == row - dr);
        assert(column - 3 * dc + 3 * dc == column && row - 3 * dr + 3 * dr == row);
    }
}

/// A frame of a fall is a well-formed grid.
pub proof fn lemma_frame_well_formed(g: Grid, dropped: Option<usize>, frame: int)
    requires
        well_formed(g),
    ensures
        well_formed(frame_grid(g, dropped, frame)),
{
    let h = frame_grid(g, dropped, frame);
    if h != g {
        let column = dropped->0 as int;
        let rest = free_row(g, column) - 1;
        lemma_free_row(g, column);
        assert forall|c: int| 0 <= c < COLUMNS implies (#[trigger] h[c]).len() == ROWS by {
            assert(g[c].len() == ROWS);
        }
        assert forall|c: int, lo: int, hi: int|
            0 <= c < COLUMNS && 0 <= lo < hi < ROWS && #[trigger] h[c][hi]
                != Cell::Empty implies #[trigger] h[c][lo] != Cell::Empty by {
            assert(g[c].len() == ROWS);
            if c == column {
                assert(g[c][rest] != Cell::Empty);
                assert(g[c][lo] != Cell::Empty <==> lo < rest + 1);
                assert(g[c][hi] != Cell::Empty <==> hi < rest + 1);
            } else {
                assert(g[c][hi] != Cell::Empty);
                assert(g[c][lo] != Cell::Empty);
            }
        }
    }
}

} // verus!
