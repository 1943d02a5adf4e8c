//! One game from the first move to its end, driven key by key.
//!
//! The caller reads the keys and draws the screen; the game decides what each
//! key means, whose turn it is and when the game is over.

use vstd::prelude::*;
use crate::board::Board;
use crate::grid::{Colour, Grid, CELLS, COLUMNS};
use crate::grid::{opponent, well_formed, pieces, drop_outcome, after_drop, winner_at, empty_grid};
use crate::grid::{lemma_pieces, lemma_after_drop};
use crate::laws::law_empty_grid;

verus! {

/// Ctrl+C: leave the game.
pub const KEY_QUIT: u8 = 3;

/// Enter: drop a piece into the selected column.
pub const KEY_ENTER: u8 = 13;

/// Space: the same as Enter.
pub const KEY_SPACE: u8 = 32;

/// The digit 1: select the first column. The digits up to 7 select the
/// columns after it.
pub const KEY_FIRST_COLUMN: u8 = 49;

/// The digit 7: select the last column.
pub const KEY_LAST_COLUMN: u8 = 55;

/// The letter that ends the left-arrow sequence: move the highlight to the
/// left.
pub const KEY_LEFT: u8 = 68;

/// The letter that ends the right-arrow sequence: move the highlight to the
/// right.
pub const KEY_RIGHT: u8 = 67;

/// How far a game has come.
#[derive(Clone, Copy, Debug, PartialEq, Eq, Structural)]
pub enum Status {
    /// The next move is awaited.
    Playing,
    /// The last piece dropped made a line of four for this player.
    Won(Colour),
    /// The board is full and nobody has won.
    Drawn,
}

/// What the caller does after a key.
#[derive(Clone, Copy, Debug, PartialEq, Eq, Structural)]
pub enum Action {
    /// Leave the game.
    Quit,
    /// Nothing has changed: read the next key.
    Wait,
    /// Draw the screen again, then read the next key.
    Redraw,
    /// A piece was dropped and has come to rest on `row`: show the frames of
    /// its fall, then go on as `status` says.
    Landed { row: usize, status: Status },
}

/// A game as contracts see it.
pub struct GameView {
    /// The grid of the board.
    pub grid: Grid,
    /// The column that the board highlights.
    pub highlight: Option<usize>,
    /// The column of the last successful drop, whose piece the frames of a
    /// fall show.
    pub last_drop: Option<usize>,
    /// The player who moves next.
    pub turn: Colour,
    /// Number of moves that have been made and have not ended the game by a
    /// win.
    pub turns: nat,
    /// The column that Enter drops into.
    pub selected: Option<usize>,
    /// How far the game has come.
    pub status: Status,
}

/// The game before the first key: an empty board, Red to move, nothing
/// selected.
pub open spec fn opening() -> GameView {
    GameView {
        grid: empty_grid(),
        highlight: None,
        last_drop: None,
        turn: Colour::Red,
        turns: 0,
        selected: None,
        status: Status::Playing,
    }
}

/// The game with `column` selected and highlighted.
pub open spec fn choose_column(v: GameView, column: usize) -> GameView {
    GameView { selected: Some(column), highlight: Some(column), ..v }
}

/// The status after a move that has brought the number of moves to `turns`
/// without a win.
pub open spec fn status_after(turns: nat) -> Status {
    if turns >= CELLS {
        Status::Drawn
    } else {
        Status::Playing
    }
}

/// The player to move drops a piece into `column`.
///
/// A refused drop changes nothing and has the screen drawn again, so that the
/// same player chooses again. A drop that succeeds is remembered as the last
/// drop. A drop that makes a line of four ends the game for the player who
/// made it. Any other drop passes the turn to the
/// opponent and counts as a move; the move that fills the board ends the game
/// as drawn.
pub open spec fn play(v: GameView, column: usize) -> (GameView, Action) {
    match drop_outcome(v.grid, column as int) {
        Err(_) => (v, Action::Redraw),
        Ok(row) => {
            let grid = after_drop(v.grid, column as int, v.turn);
            let last_drop = Some(column);
            match winner_at(grid, column as int) {
                Some(winner) => {
                    let status = Status::Won(winner);
                    (GameView { grid, last_drop, status, ..v }, Action::Landed { row, status })
                },
                None => {
                    let turns = v.turns + 1;
                    let status = status_after(turns);
                    (
                        GameView { grid, last_drop, turn: opponent(v.turn), turns, status, ..v },
                        Action::Landed { row, status },
                    )
                },
            }
        },
    }
}

/// What a key does to a game, and what the caller does next.
///
/// Once the game is over every key leaves it. While it is played:
/// Ctrl+C leaves; a digit from 1 to 7 selects and highlights that column;
/// the left and right keys move the highlight, and the selection with it, by
/// one column unless nothing is highlighted or the edge is reached; Enter
/// and Space drop a piece into the selected column, or do nothing while none
/// has been selected; any other key takes the highlight away and keeps the
/// selection.
pub open spec fn step(v: GameView, key: u8) -> (GameView, Action) {
    if v.status != Status::Playing || key == KEY_QUIT {
        (v, Action::Quit)
    } else if key == KEY_ENTER || key == KEY_SPACE {
        match v.selected {
            Some(column) => play(v, column),
            None => (v, Action::Wait),
        }
    } else if KEY_FIRST_COLUMN <= key <= KEY_LAST_COLUMN {
        (choose_column(v, (key - KEY_FIRST_COLUMN) as usize), Action::Redraw)
    } else if key == KEY_LEFT {
        match v.highlight {
            Some(column) if column > 0 => (
                choose_column(v, (column - 1) as usize),
                Action::Redraw,
            ),
            _ => (v, Action::Redraw),
        }
    } else if key == KEY_RIGHT {
        match v.highlight {
            Some(column) if column + 1 < COLUMNS => (
                choose_column(v, (column + 1) as usize),
                Action::Redraw,
            ),
            _ => (v, Action::Redraw),
        }
    } else {
        (GameView { highlight: None, ..v }, Action::Redraw)
    }
}

/// What holds of a game at every moment.
///
/// The grid is well formed; the selected column and the column of the last
/// drop are columns of it, and the highlighted column, if there is one, is
/// the selected one; Red moves when
/// the number of moves is even, Blue when it is odd; every move has left one
/// piece on the grid, and a won game holds the winning piece besides; and the
/// game is drawn exactly when the moves have filled the board.
pub open spec fn consistent(v: GameView) -> bool {
    &&& well_formed(v.grid)
    &&& v.selected matches Some(c) ==> c < COLUMNS
    &&& v.last_drop matches Some(c) ==> c < COLUMNS
    &&& v.highlight is Some ==> v.highlight == v.selected
    &&& v.turn == if v.turns % 2 == 0 {
        Colour::Red
    } else {
        Colour::Blue
    }
    &&& pieces(v.grid) == v.turns + if v.status is Won {
        1int
    } else {
        0int
    }
    &&& v.status is Drawn <==> v.turns == CELLS
}

/// The opening is consistent.
pub proof fn law_opening_is_consistent()
    ensures
        consistent(opening()),
{
    law_empty_grid();
}

/// Whatever the key, a consistent game stays consistent.
pub proof fn law_games_stay_consistent(v: GameView, key: u8)
    requires
        consistent(v),
    ensures
        consistent(step(v, key).0),
{
    lemma_pieces(v.grid);
    if let Some(column) = v.selected {
        if drop_outcome(v.grid, column as int) is Ok {
            lemma_after_drop(v.grid, column as int, v.turn);
        }
    }
}

/// A move that does not win passes the turn to the opponent and is counted;
/// a refused drop and a key that only moves the highlight leave turn and
/// count as they are. The game is reported as drawn by the move that brings
/// the count to the number of cells, and by no other.
pub proof fn law_turns_alternate(v: GameView, key: u8)
    requires
        consistent(v),
    ensures
        ({
            let (next, action) = step(v, key);
            &&& action matches Action::Landed { row, status: Status::Playing } ==> next.turn
                == opponent(v.turn) && next.turns == v.turns + 1 < CELLS
            &&& action matches Action::Landed { row, status: Status::Drawn } ==> next.turns
                == v.turns + 1 == CELLS
            &&& !(action is Landed) ==> next.turn == v.turn && next.turns == v.turns && next.grid
                == v.grid && next.status == v.status && next.last_drop == v.last_drop
            &&& action is Landed ==> action->status == next.status
        }),
{
    law_games_stay_consistent(v, key);
}

/// A drawn game has a full board: every drop is refused.
pub proof fn law_drawn_board_is_full(v: GameView, column: int)
    requires
        consistent(v),
        v.status is Drawn,
    ensures
        pieces(v.grid) == CELLS,
        drop_outcome(v.grid, column) is Err,
{
    lemma_pieces(v.grid);
}

/// A game of Connect Four.
pub struct Game {
    board: Board,
    turn: Colour,
    turns: usize,
    selected: Option<usize>,
    status: Status,
}

impl View for Game {
    type V = GameView;

    closed spec fn view(&self) -> GameView {
        GameView {
            grid: self.board@,
            highlight: self.board.highlight(),
            last_drop: self.board.last_drop(),
            turn: self.turn,
            turns: self.turns as nat,
            selected: self.selected,
            status: self.status,
        }
    }
}

impl Game {
    /// What holds of every game: it is consistent.
    #[verifier::type_invariant]
    pub open spec fn valid(&self) -> bool {
        consistent(self@)
    }

    /// A game at its opening.
    pub fn new() -> (game: Game)
        ensures
            game@ == opening(),
    {
        proof {
            law_empty_grid();
        }
        Game {
            board: Board::new(),
            turn: Colour::Red,
            turns: 0,
            selected: None,
            status: Status::Playing,
        }
    }

    /// The board of the game.
    pub fn board(&self) -> (board: &Board)
        ensures
            board@ == self@.grid,
            board.highlight() == self@.highlight,
            board.last_drop() == self@.last_drop,
    {
        &self.board
    }

    /// The player who moves next.
    pub fn turn(&self) -> (turn: Colour)
        ensures
            turn == self@.turn,
    {
        self.turn
    }

    /// Number of moves made so far, the winning move not counted.
    pub fn turns(&self) -> (turns: usize)
        ensures
            turns == self@.turns,
    {
        self.turns
    }

    /// The column that Enter drops into.
    pub fn selected(&self) -> (selected: Option<usize>)
        ensures
            selected == self@.selected,
    {
        self.selected
    }

    /// How far the game has come.
    pub fn status(&self) -> (status: Status)
        ensures
            status == self@.status,
    {
        self.status
    }

    /// Selects and highlights `column`.
    fn select(&mut self, column: usize)
        requires
            column < COLUMNS,
        ensures
            final(self)@ == choose_column(old(self)@, column),
    {
        proof {
            use_type_invariant(&*self);
        }
        let mut board = self.board;
        let _ = board.set_highlighted_column(Some(column));
        *self = Game {
            board,
            turn: self.turn,
            turns: self.turns,
            selected: Some(column),
            status: self.status,
        };
    }

    /// Drops a piece of the player to move into `column`.
    fn drop_into(&mut self, column: usize) -> (action: Action)
        requires
            old(self)@.status == Status::Playing,
        ensures
            (final(self)@, action) == play(old(self)@, column),
    {
        proof {
            use_type_invariant(&*self);
            lemma_pieces(self@.grid);
        }
        let mut board = self.board;
        match board.drop_piece(column, self.turn) {
            Err(_) => Action::Redraw,
            Ok(row) => {
                proof {
                    lemma_after_drop(self@.grid, column as int, self.turn);
                }
                match board.check_win_at(column) {
                    Some(winner) => {
                        let status = Status::Won(winner);
                        *self = Game {
                            board,
                            turn: self.turn,
                            turns: self.turns,
                            selected: self.selected,
                            status,
                        };
                        Action::Landed { row, status }
                    },
                    None => {
                        let turns = self.turns + 1;
                        let status = if turns >= CELLS {
                            Status::Drawn
                        } else {
                            Status::Playing
                        };
                        *self = Game {
                            board,
                            turn: self.turn.other(),
                            turns,
                            selected: self.selected,
                            status,
                        };
                        Action::Landed { row, status }
                    },
                }
            },
        }
    }

    /// Takes one key and says what the caller does next.
    pub fn press(&mut self, key: u8) -> (action: Action)
        ensures
            (final(self)@, action) == step(old(self)@, key),
    {
        proof {
            use_type_invariant(&*self);
        }
        if self.status != Status::Playing || key == KEY_QUIT {
            Action::Quit
        } else if key == KEY_ENTER || key == KEY_SPACE {
            match self.selected {
                Some(column) => self.drop_into(column),
                None => Action::Wait,
            }
        } else if KEY_FIRST_COLUMN <= key && key <= KEY_LAST_COLUMN {
            self.select((key - KEY_FIRST_COLUMN) as usize);
            Action::Redraw
        } else if key == KEY_LEFT {
            match self.board.highlighted_column() {
                Some(column) => {
                    if column > 0 {
                        self.select(column - 1);
                    }
                },
                None => {},
            }
            Action::Redraw
        } else if key == KEY_RIGHT {
            match self.board.highlighted_column() {
                Some(column) => {
                    if column + 1 < COLUMNS {
                        self.select(column + 1);
                    }
                },
                None => {},
            }
            Action::Redraw
        } else {
            let mut board = self.board;
            let _ = board.set_highlighted_column(None);
            *self = Game {
                board,
                turn: self.turn,
                turns: self.turns,
                selected: self.selected,
                status: self.status,
            };
            Action::Redraw
        }
    }
}

} // verus!
