//! What the rules of the game imply, proved over the grid.

use vstd::prelude::*;
use crate::grid::{BoardError, Cell, Colour, Grid, COLUMNS, ROWS};
use crate::grid::{after_drop, drop_outcome, empty_grid, free_row, in_grid, well_formed};
use crate::grid::{four_from, frame_grid, line_through, on_line_of_four, owns, winner_at};
use crate::grid::{lemma_after_drop, lemma_free_row};

verus! {

/// No cell of `column` holds a piece.
pub open spec fn column_empty(g: Grid, column: int) -> bool {
    forall|r: int| 0 <= r < ROWS ==> #[trigger] g[column][r] == Cell::Empty
}

/// The grid after the pieces of `players` have been dropped into `column`,
/// one after the other, the first of the sequence first.
pub open spec fn after_drops(g: Grid, column: int, players: Seq<Colour>) -> Grid
    decreases players.len(),
{
    if players.len() == 0 {
        g
    } else {
        after_drop(after_drops(g, column, players.drop_last()), column, players.last())
    }
}

/// The empty grid is well formed, and each of its columns is empty.
pub proof fn law_empty_grid()
    ensures
        well_formed(empty_grid()),
        forall|c: int| 0 <= c < COLUMNS ==> column_empty(empty_grid(), c),
        forall|c: int| 0 <= c < COLUMNS ==> #[trigger] free_row(empty_grid(), c) == 0,
{
    let g = empty_grid();
    assert forall|c: int| 0 <= c < COLUMNS implies column_empty(g, c) && #[trigger] free_row(g, c)
        == 0 by {
        assert(g[c][0] == Cell::Empty);
    }
}

/// A piece dropped into an empty column lands on the bottom row.
pub proof fn law_empty_column_lands_at_bottom(g: Grid, column: int, player: Colour)
    requires
        well_formed(g),
        0 <= column < COLUMNS,
        column_empty(g, column),
    ensures
        drop_outcome(g, column) == Ok::<usize, BoardError>(0),
        after_drop(g, column, player)[column][0] == Cell::Occupied(player),
{
    assert(g[column][0] == Cell::Empty);
    lemma_after_drop(g, column, player);
}

/// Pieces dropped into one column stack: as long as they fit, each lands one
/// row above the one before, and the grid stays well formed.
pub proof fn law_drops_stack(g: Grid, column: int, players: Seq<Colour>)
    requires
        well_formed(g),
        0 <= column < COLUMNS,
        free_row(g, column) + players.len() <= ROWS,
    ensures
        well_formed(after_drops(g, column, players)),
        free_row(after_drops(g, column, players), column) == free_row(g, column) + players.len(),
        forall|k: int|
            0 <= k < players.len() ==> #[trigger] drop_outcome(
                after_drops(g, column, players.take(k)),
                column,
            ) == Ok::<usize, BoardError>((free_row(g, column) + k) as usize),
        forall|k: int|
            0 <= k < players.len() ==> #[trigger] after_drops(g, column, players)[column][free_row(
                g,
                column,
            ) + k] == Cell::Occupied(players[k]),
    decreases players.len(),
{
    lemma_free_row(g, column);
    if players.len() > 0 {
        let earlier = players.drop_last();
        let before = after_drops(g, column, earlier);
        law_drops_stack(g, column, earlier);
        lemma_after_drop(before, column, players.last());
        assert forall|k: int| 0 <= k < players.len() implies #[trigger] drop_outcome(
            after_drops(g, column, players.take(k)),
            column,
        ) == Ok::<usize, BoardError>((free_row(g, column) + k) as usize) by {
            if k < earlier.len() {
                assert(players.take(k) =~= earlier.take(k));
            } else {
                assert(players.take(k) =~= earlier);
            }
        }
        assert forall|k: int| 0 <= k < players.len() implies #[trigger] after_drops(
            g,
            column,
            players,
        )[column][free_row(g, column) + k] == Cell::Occupied(players[k]) by {
            if k < earlier.len() {
                assert(before[column][free_row(g, column) + k] == Cell::Occupied(earlier[k]));
            }
        }
    }
}

/// Pieces dropped into an empty column land on rows 0, 1, 2 and so on in the
/// order of the drops. Once six have been dropped the column is full: the
/// next drop is refused with `ColumnFull` and changes nothing.
pub proof fn law_drops_fill_column(g: Grid, column: int, players: Seq<Colour>, next: Colour)
    requires
        well_formed(g),
        0 <= column < COLUMNS,
        column_empty(g, column),
        players.len() <= ROWS,
    ensures
        forall|k: int|
            0 <= k < players.len() ==> #[trigger] drop_outcome(
                after_drops(g, column, players.take(k)),
                column,
            ) == Ok::<usize, BoardError>(k as usize),
        players.len() == ROWS ==> drop_outcome(after_drops(g, column, players), column) == Err::<
            usize,
            BoardError,
        >(BoardError::ColumnFull),
        players.len() == ROWS ==> after_drop(after_drops(g, column, players), column, next)
            == after_drops(g, column, players),
{
    assert(g[column][0] == Cell::Empty);
    law_drops_stack(g, column, players);
}

/// The topmost piece of `column` lies on a line of four of its own colour.
pub open spec fn top_piece_on_line(g: Grid, column: int) -> bool {
    &&& 0 <= column < COLUMNS
    &&& 0 < free_row(g, column)
    &&& exists|player: Colour|
        g[column][free_row(g, column) - 1] == Cell::Occupied(player) && #[trigger] on_line_of_four(
            g,
            column,
            free_row(g, column) - 1,
            player,
        )
}

/// A winner is reported exactly when the topmost piece of the column lies
/// on a line of four of its own colour, and the winner is the owner of that
/// piece. Without such a line through that piece there is no winner.
pub proof fn law_winner_has_line(g: Grid, column: int)
    ensures
        winner_at(g, column) is Some <==> top_piece_on_line(g, column),
        winner_at(g, column) matches Some(player) ==> g[column][free_row(g, column) - 1]
            == Cell::Occupied(player),
{
}

/// On the empty grid no column has a winner.
pub proof fn law_empty_grid_has_no_winner(column: int)
    ensures
        winner_at(empty_grid(), column) == None::<Colour>,
{
    law_empty_grid();
    if 0 <= column < COLUMNS {
        assert(free_row(empty_grid(), column) == 0);
    }
}

/// `(dc, dr)` is one of the four directions along which a line counts:
/// across, upright, and the two diagonals.
pub open spec fn line_direction(dc: int, dr: int) -> bool {
    ||| dc == 1 && dr == 0
    ||| dc == 0 && dr == 1
    ||| dc == 1 && dr == 1
    ||| dc == 1 && dr == -1
}

/// Four pieces of one player in a line win: asked for the column of any of
/// the four that is the topmost piece of its column, the winner is that
/// player. Here the line starts at `(column, row)` and runs along
/// `(dc, dr)`, and the piece asked for is number `k` of the four.
pub proof fn law_line_of_four_wins(
    g: Grid,
    column: int,
    row: int,
    dc: int,
    dr: int,
    k: int,
    player: Colour,
)
    requires
        line_direction(dc, dr),
        four_from(g, column, row, dc, dr, player),
        0 <= k < 4,
        free_row(g, column + k * dc) == row + k * dr + 1,
    ensures
        winner_at(g, column + k * dc) == Some(player),
{
    if k == 0 {
        assert(line_through(g, column + k * dc, row + k * dr, dc, dr, player));
    } else if k == 1 {
        assert(column + 1 * dc - dc == column && row + 1 * dr - dr == row);
        assert(line_through(g, column + k * dc, row + k * dr, dc, dr, player));
    } else if k == 2 {
        assert(column + 2 * dc - 2 * dc == column && row + 2 * dr - 2 * dr == row);
        assert(line_through(g, column + k * dc, row + k * dr, dc, dr, player));
    } else {
        assert(column + 3 * dc - 3 * dc == column && row + 3 * dr - 3 * dr == row);
        assert(line_through(g, column + k * dc, row + k * dr, dc, dr, player));
    }
    assert(owns(g, column + k * dc, row + k * dr, player));
    assert(on_line_of_four(g, column + k * dc, row + k * dr, player));
}

/// Four pieces of one player dropped into one column in a row win the game
/// for that player, whatever lies below them.
pub proof fn law_four_stacked_win(g: Grid, column: int, player: Colour)
    requires
        well_formed(g),
        0 <= column < COLUMNS,
        free_row(g, column) + 4 <= ROWS,
    ensures
        winner_at(after_drops(g, column, seq![player, player, player, player]), column) == Some(
            player,
        ),
{
    let players = seq![player, player, player, player];
    let h = after_drops(g, column, players);
    let base = free_row(g, column);
    lemma_free_row(g, column);
    law_drops_stack(g, column, players);
    assert(h[column][base + 0] == Cell::Occupied(players[0]));
    assert(h[column][base + 1] == Cell::Occupied(players[1]));
    assert(h[column][base + 2] == Cell::Occupied(players[2]));
    assert(h[column][base + 3] == Cell::Occupied(players[3]));
    let top = free_row(h, column) - 1;
    assert(top == base + 3);
    assert(four_from(h, column - 3 * 0, top - 3 * 1, 0, 1, player));
    assert(line_through(h, column, top, 0, 1, player));
}

/// While the topmost piece of `column` falls towards the row `rest` on
/// which it rests, frame number `frame`, below `rest`, shows it on row
/// `rest - frame`: on `rest` in frame 0, one row lower with each frame after
/// it. The frame shows `rest` empty once the piece has left it, and every
/// other cell as the grid has it. Frame 0 shows the grid itself.
pub proof fn law_frame_moves_one_piece(g: Grid, column: usize, frame: int)
    requires
        well_formed(g),
        column < COLUMNS,
        0 <= frame < free_row(g, column as int) - 1,
    ensures
        ({
            let rest = free_row(g, column as int) - 1;
            let shown = frame_grid(g, Some(column), frame);
            &&& shown[column as int][rest - frame] == g[column as int][rest]
            &&& shown[column as int][rest - frame] != Cell::Empty
            &&& frame > 0 ==> shown[column as int][rest] == Cell::Empty
            &&& forall|c: int, r: int|
                in_grid(c, r) && !(c == column && (r == rest || r == rest - frame))
                    ==> #[trigger] shown[c][r] == g[c][r]
            &&& frame == 0 ==> shown == g
        }),
{
    let rest = free_row(g, column as int) - 1;
    let shown = frame_grid(g, Some(column), frame);
    lemma_free_row(g, column as int);
    assert(g[column as int].len() == ROWS);
    assert(g[column as int][rest] != Cell::Empty);
    if frame == 0 {
        assert(shown =~~= g);
    }
}

/// The frames after a drop show the piece that was dropped. After `player`
/// has dropped a piece into `column` and it has landed on row `rest`, frame
/// number `frame`, below `rest`, shows a piece of `player` on row
/// `rest - frame` of `column`, shows `rest` empty once the piece has left it,
/// and shows every other cell, so every other column, as the grid has it
/// after the drop.
pub proof fn law_frames_follow_the_drop(g: Grid, column: usize, player: Colour, frame: int)
    requires
        well_formed(g),
        drop_outcome(g, column as int) is Ok,
        0 <= frame < free_row(g, column as int),
    ensures
        ({
            let rest = free_row(g, column as int);
            let landed = after_drop(g, column as int, player);
            let shown = frame_grid(landed, Some(column), frame);
            &&& drop_outcome(g, column as int) == Ok::<usize, BoardError>(rest as usize)
            &&& shown[column as int][rest - frame] == Cell::Occupied(player)
            &&& frame > 0 ==> shown[column as int][rest] == Cell::Empty
            &&& forall|c: int, r: int|
                in_grid(c, r) && !(c == column && (r == rest || r == rest - frame))
                    ==> #[trigger] shown[c][r] == landed[c][r]
            &&& frame == 0 ==> shown == landed
        }),
{
    lemma_after_drop(g, column as int, player);
    law_frame_moves_one_piece(after_drop(g, column as int, player), column, frame);
}

/// Once the frames have reached the resting row of the falling piece, they
/// show the grid itself; so they do before the first drop.
pub proof fn law_last_frame_is_the_grid(g: Grid, dropped: Option<usize>, frame: int)
    requires
        match dropped {
            Some(column) => column < COLUMNS ==> frame >= free_row(g, column as int) - 1,
            None => true,
        },
    ensures
        frame_grid(g, dropped, frame) == g,
{
}

} // verus!
