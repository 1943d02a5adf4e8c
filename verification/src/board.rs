//! The executable board.

use vstd::prelude::*;
use vstd::string::StringExecFns;
use crate::grid::{BoardError, Cell, Colour, Grid, COLUMNS, LINE_WIDTH, ROWS};
use crate::grid::{after_drop, drop_outcome, empty_grid, first_empty, free_row, in_grid, well_formed};
use crate::grid::{frame_grid, glyph, line_through, owns, rendering, run, winner_at};
use crate::grid::{lemma_after_drop, lemma_frame_well_formed, lemma_runs_make_line};

verus! {

/// A Connect Four board: the grid of cells, the column that the display
/// highlights, and the column into which the last piece was dropped.
#[derive(Clone, Copy, Debug, PartialEq, Eq)]
pub struct Board {
    grid: [[Cell; ROWS]; COLUMNS],
    highlighted_column: Option<usize>,
    dropped_column: Option<usize>,
}

/// The cells of the array as a grid.
spec fn grid_of(cells: [[Cell; ROWS]; COLUMNS]) -> Grid {
    Seq::new(COLUMNS as nat, |c: int| cells[c]@)
}

impl View for Board {
    type V = Grid;

    closed spec fn view(&self) -> Grid {
        grid_of(self.grid)
    }
}

impl Board {
    /// The highlighted column, as contracts see it.
    pub closed spec fn highlight(&self) -> Option<usize> {
        self.highlighted_column
    }

    /// The column of the last successful drop, as contracts see it: `None`
    /// as long as nothing has been dropped.
    pub closed spec fn last_drop(&self) -> Option<usize> {
        self.dropped_column
    }

    /// What holds of every board: the grid is well formed, and the
    /// highlighted column and the column of the last drop, where there is
    /// one, are columns of the grid.
    #[verifier::type_invariant]
    pub open spec fn valid(&self) -> bool {
        &&& well_formed(self@)
        &&& self.highlight() matches Some(c) ==> c < COLUMNS
        &&& self.last_drop() matches Some(c) ==> c < COLUMNS
    }

    /// A board with every cell empty, no column highlighted and nothing
    /// dropped.
    pub fn new() -> (board: Board)
        ensures
            board@ == empty_grid(),
            board.highlight() == None::<usize>,
            board.last_drop() == None::<usize>,
    {
        let board = Board {
            grid: [[Cell::Empty; ROWS]; COLUMNS],
            highlighted_column: None,
            dropped_column: None,
        };
        assert(board@ =~~= empty_grid());
        board
    }

    /// The lowest empty row of `column`, or `ROWS` when the column is full.
    fn lowest_free_row(&self, column: usize) -> (row: usize)
        requires
            column < COLUMNS,
        ensures
            row == free_row(self@, column as int),
            row <= ROWS,
    {
        let mut row: usize = 0;
        while row < ROWS && self.grid[column][row] != Cell::Empty
            invariant
                column < COLUMNS,
                row <= ROWS,
                self@[column as int].len() == ROWS,
                first_empty(self@[column as int], row as int) == free_row(self@, column as int),
            decreases ROWS - row,
        {
            row = row + 1;
        }
        row
    }

    /// Whether `(column, row)` is a cell of the grid that holds a piece of
    /// `player`.
    fn holds(&self, column: isize, row: isize, player: Colour) -> (held: bool)
        ensures
            held == owns(self@, column as int, row as int, player),
    {
        if column < 0 || column >= COLUMNS as isize || row < 0 || row >= ROWS as isize {
            return false;
        }
        self.grid[column as usize][row as usize] == Cell::Occupied(player)
    }

    /// Counts the pieces of `player` that follow `(column, row)` without a gap
    /// along `(dc, dr)`, three at most.
    fn count_run(&self, column: usize, row: usize, dc: isize, dr: isize, player: Colour) -> (count:
        usize)
        requires
            in_grid(column as int, row as int),
            -1 <= dc <= 1,
            -1 <= dr <= 1,
        ensures
            count == run(self@, column as int, row as int, dc as int, dr as int, player, 3),
            count <= 3,
    {
        let mut count: usize = 0;
        let mut c: isize = column as isize;
        let mut r: isize = row as isize;
        while count < 3 && self.holds(c + dc, r + dr, player)
            invariant
                count <= 3,
                -1 <= dc <= 1,
                -1 <= dr <= 1,
                -3 <= c <= COLUMNS + 3,
                -3 <= r <= ROWS + 3,
                count + run(self@, c as int, r as int, dc as int, dr as int, player, (3 - count) as nat)
                    == run(self@, column as int, row as int, dc as int, dr as int, player, 3),
            decreases 3 - count,
        {
            c = c + dc;
            r = r + dr;
            count = count + 1;
        }
        count
    }

    /// Whether the piece of `player` at `(column, row)` lies on a line of four
    /// along `(dc, dr)`.
    fn completes_line(&self, column: usize, row: usize, dc: isize, dr: isize, player: Colour) -> (found:
        bool)
        requires
            owns(self@, column as int, row as int, player),
            -1 <= dc <= 1,
            -1 <= dr <= 1,
        ensures
            found == line_through(self@, column as int, row as int, dc as int, dr as int, player),
    {
        let ahead = self.count_run(column, row, dc, dr, player);
        let behind = self.count_run(column, row, -dc, -dr, player);
        proof {
            lemma_runs_make_line(self@, column as int, row as int, dc as int, dr as int, player);
        }
        1 + ahead + behind >= 4
    }

    /// Looks for a line of four through the topmost piece of `column`.
    ///
    /// Called after a drop into `column`, this tells whether that drop has won
    /// the game: the result is the colour of the topmost piece if it lies on
    /// four in a row across, upright or along a diagonal. An empty column, or
    /// one outside the grid, has no winner. The board is not changed.
    pub fn check_win_at(&self, column: usize) -> (winner: Option<Colour>)
        ensures
            winner == winner_at(self@, column as int),
    {
        if column >= COLUMNS {
            return None;
        }
        let free = self.lowest_free_row(column);
        if free == 0 {
            return None;
        }
        let row = free - 1;
        match self.grid[column][row] {
            Cell::Empty => None,
            Cell::Occupied(player) => {
                if self.completes_line(column, row, 1, 0, player) || self.completes_line(
                    column,
                    row,
                    0,
                    1,
                    player,
                ) || self.completes_line(column, row, 1, 1, player) || self.completes_line(
                    column,
                    row,
                    1,
                    -1,
                    player,
                ) {
                    Some(player)
                } else {
                    None
                }
            },
        }
    }

    /// What `(column, row)` holds, or `None` where that is no cell of the grid.
    pub fn cell(&self, column: usize, row: usize) -> (cell: Option<Cell>)
        ensures
            cell == if in_grid(column as int, row as int) {
                Some(self@[column as int][row as int])
            } else {
                None
            },
    {
        if column < COLUMNS && row < ROWS {
            Some(self.grid[column][row])
        } else {
            None
        }
    }

    /// The column that the display highlights.
    pub fn highlighted_column(&self) -> (column: Option<usize>)
        ensures
            column == self.highlight(),
    {
        self.highlighted_column
    }

    /// Highlights `column`, or nothing for `None`. The grid is not touched,
    /// nor is the record of the last drop.
    ///
    /// A column outside the grid is refused with `InvalidColumn`, and the
    /// highlight stays as it was.
    pub fn set_highlighted_column(&mut self, column: Option<usize>) -> (result: Result<
        (),
        BoardError,
    >)
        ensures
            final(self)@ == old(self)@,
            final(self).last_drop() == old(self).last_drop(),
            match column {
                Some(c) if c >= COLUMNS => result == Err::<(), BoardError>(
                    BoardError::InvalidColumn,
                ) && final(self).highlight() == old(self).highlight(),
                _ => result == Ok::<(), BoardError>(()) && final(self).highlight() == column,
            },
    {
        proof {
            use_type_invariant(&*self);
        }
        match column {
            Some(c) => {
                if c >= COLUMNS {
                    return Err(BoardError::InvalidColumn);
                }
            },
            None => {},
        }
        self.highlighted_column = column;
        Ok(())
    }

    /// The board as one frame of a fall shows it.
    ///
    /// The falling piece is the piece of the last successful drop, which is
    /// the topmost piece of its column, and `rest` is the row on which it
    /// rests. Frame 0 shows the board itself. Each later frame below `rest`
    /// shows the piece `frame` rows below `rest` and shows `rest` empty, every
    /// other cell as it is. From frame `rest` on the board itself is shown
    /// again, as it is before the first drop. The highlight plays no part, and
    /// the board is not changed.
    pub fn animation_frame(&self, frame: usize) -> (shown: Board)
        ensures
            shown@ == frame_grid(self@, self.last_drop(), frame as int),
            shown.highlight() == self.highlight(),
            shown.last_drop() == self.last_drop(),
    {
        let mut cells = self.grid;
        proof {
            use_type_invariant(self);
            lemma_frame_well_formed(self@, self.last_drop(), frame as int);
        }
        match self.dropped_column {
            Some(column) => {
                let free = self.lowest_free_row(column);
                if free > 0 && frame < free - 1 {
                    let rest = free - 1;
                    let piece = cells[column][rest];
                    cells[column][rest] = Cell::Empty;
                    cells[column][rest - frame] = piece;
                }
            },
            None => {},
        }
        assert(grid_of(cells) =~~= frame_grid(self@, self.last_drop(), frame as int));
        Board {
            grid: cells,
            highlighted_column: self.highlighted_column,
            dropped_column: self.dropped_column,
        }
    }

    /// The text of the grid: six lines, the top row first, each with one glyph
    /// for each cell (`.` empty, `R` red, `B` blue) and a line feed.
    pub fn to_string(&self) -> (text: String)
        ensures
            text@ == rendering(self@),
    {
        let mut text = String::new();
        let mut line: usize = 0;
        proof {
            use_type_invariant(self);
            reveal_strlit(".");
            reveal_strlit("R");
            reveal_strlit("B");
            reveal_strlit("\n");
        }
        while line < ROWS
            invariant
                line <= ROWS,
                well_formed(self@),
                text@ =~= rendering(self@).take(line * LINE_WIDTH),
                "."@ =~= seq!['.'],
                "R"@ =~= seq!['R'],
                "B"@ =~= seq!['B'],
                "\n"@ =~= seq!['\n'],
            decreases ROWS - line,
        {
            let row = ROWS - 1 - line;
            let mut column: usize = 0;
            while column < COLUMNS
                invariant
                    line < ROWS,
                    row == ROWS - 1 - line,
                    column <= COLUMNS,
                    well_formed(self@),
                    text@ =~= rendering(self@).take(line * LINE_WIDTH + column),
                    "."@ =~= seq!['.'],
                    "R"@ =~= seq!['R'],
                    "B"@ =~= seq!['B'],
                decreases COLUMNS - column,
            {
                let ghost before = text@;
                match self.grid[column][row] {
                    Cell::Empty => text.append("."),
                    Cell::Occupied(Colour::Red) => text.append("R"),
                    Cell::Occupied(Colour::Blue) => text.append("B"),
                }
                proof {
                    let at = line * LINE_WIDTH + column;
                    assert(at % (LINE_WIDTH as int) == column && at / (LINE_WIDTH as int) == line);
                    assert(rendering(self@)[at] == glyph(self@[column as int][row as int]));
                    assert(text@ =~= before.push(rendering(self@)[at]));
                    assert(rendering(self@).take(at + 1) =~= rendering(self@).take(at).push(
                        rendering(self@)[at],
                    ));
                }
                column = column + 1;
            }
            let ghost before = text@;
            text.append("\n");
            proof {
                let at = line * LINE_WIDTH + COLUMNS;
                assert(at % (LINE_WIDTH as int) == COLUMNS);
                assert(text@ =~= before.push(rendering(self@)[at]));
                assert(rendering(self@).take(at + 1) =~= rendering(self@).take(at).push(
                    rendering(self@)[at],
                ));
            }
            line = line + 1;
        }
        assert(text@ =~= rendering(self@));
        text
    }

    /// Drops a piece of `player` into `column`.
    ///
    /// The piece comes to rest on the lowest empty row of the column, and that
    /// row is returned; the board remembers the column as that of the last
    /// drop. A full column gives `ColumnFull`, a column outside the grid
    /// `InvalidColumn`, and both leave the board as it was.
    pub fn drop_piece(&mut self, column: usize, player: Colour) -> (result: Result<usize, BoardError>)
        ensures
            result == drop_outcome(old(self)@, column as int),
            final(self)@ == after_drop(old(self)@, column as int, player),
            final(self).highlight() == old(self).highlight(),
            final(self).last_drop() == if result is Ok {
                Some(column)
            } else {
                old(self).last_drop()
            },
    {
        if column >= COLUMNS {
            return Err(BoardError::InvalidColumn);
        }
        let row = self.lowest_free_row(column);
        if row >= ROWS {
            return Err(BoardError::ColumnFull);
        }
        let mut cells = self.grid;
        cells[column][row] = Cell::Occupied(player);
        proof {
            use_type_invariant(&*self);
            lemma_after_drop(self@, column as int, player);
            assert(grid_of(cells) =~~= after_drop(self@, column as int, player));
        }
        *self = Board {
            grid: cells,
            highlighted_column: self.highlighted_column,
            dropped_column: Some(column),
        };
        Ok(row)
    }
}

} // verus!
