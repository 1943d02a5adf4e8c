use connect_four::game::{Action, Game, Status};
use connect_four::game::{KEY_ENTER, KEY_FIRST_COLUMN, KEY_LEFT, KEY_QUIT, KEY_RIGHT, KEY_SPACE};
use connect_four::grid::{Cell, Colour};

/// Selects `column` with its digit and confirms with Enter.
fn drop_into(game: &mut Game, column: usize) -> Action {
    assert_eq!(game.press(KEY_FIRST_COLUMN + column as u8), Action::Redraw);
    game.press(KEY_ENTER)
}

const DRAWN_MOVES: [usize; 42] = [
    5, 3, 2, 3, 1, 5, 3, 1, 0, 1, 4, 1, 2, 5, 0, 5, 6, 6, 2, 0, 6, 0, 4, 2, 3, 0, 3, 4, 2, 3, 2,
    6, 1, 1, 5, 4, 6, 6, 0, 4, 4, 5,
];

#[test]
fn game_opens_with_red_and_nothing_selected() {
    let game = Game::new();
    assert_eq!(game.turn(), Colour::Red);
    assert_eq!(game.turns(), 0);
    assert_eq!(game.selected(), None);
    assert_eq!(game.status(), Status::Playing);
    assert_eq!(game.board().highlighted_column(), None);
    assert_eq!(game.board().to_string(), ".......\n".repeat(6));
}

#[test]
fn colours_alternate() {
    assert_eq!(Colour::Red.other(), Colour::Blue);
    assert_eq!(Colour::Blue.other(), Colour::Red);
}

#[test]
fn enter_without_selection_waits() {
    let mut game = Game::new();
    assert_eq!(game.press(KEY_ENTER), Action::Wait);
    assert_eq!(game.press(KEY_SPACE), Action::Wait);
    assert_eq!(game.turns(), 0);
    assert_eq!(game.turn(), Colour::Red);
}

#[test]
fn quit_key_leaves() {
    let mut game = Game::new();
    assert_eq!(game.press(KEY_QUIT), Action::Quit);
    assert_eq!(game.status(), Status::Playing);
}

#[test]
fn digits_select_columns() {
    let mut game = Game::new();
    for column in 0..7 {
        assert_eq!(game.press(b'1' + column as u8), Action::Redraw);
        assert_eq!(game.selected(), Some(column));
        assert_eq!(game.board().highlighted_column(), Some(column));
    }
    // 0 and 8 are no column keys: they take the highlight away and keep the selection.
    assert_eq!(game.press(b'8'), Action::Redraw);
    assert_eq!(game.selected(), Some(6));
    assert_eq!(game.board().highlighted_column(), None);
    assert_eq!(game.press(b'0'), Action::Redraw);
    assert_eq!(game.selected(), Some(6));
    assert_eq!(game.board().highlighted_column(), None);
}

#[test]
fn left_and_right_move_the_highlight() {
    let mut game = Game::new();
    // Nothing highlighted: the keys change nothing.
    assert_eq!(game.press(KEY_LEFT), Action::Redraw);
    assert_eq!(game.press(KEY_RIGHT), Action::Redraw);
    assert_eq!(game.selected(), None);
    assert_eq!(game.board().highlighted_column(), None);

    game.press(b'2');
    assert_eq!(game.press(KEY_LEFT), Action::Redraw);
    assert_eq!(game.selected(), Some(0));
    assert_eq!(game.board().highlighted_column(), Some(0));
    // The left edge holds.
    assert_eq!(game.press(KEY_LEFT), Action::Redraw);
    assert_eq!(game.selected(), Some(0));

    game.press(b'6');
    assert_eq!(game.press(KEY_RIGHT), Action::Redraw);
    assert_eq!(game.selected(), Some(6));
    assert_eq!(game.board().highlighted_column(), Some(6));
    // The right edge holds.
    assert_eq!(game.press(KEY_RIGHT), Action::Redraw);
    assert_eq!(game.selected(), Some(6));
    assert_eq!(game.board().highlighted_column(), Some(6));
}

#[test]
fn other_keys_clear_the_highlight_but_not_the_selection() {
    let mut game = Game::new();
    game.press(b'4');
    assert_eq!(game.press(b'x'), Action::Redraw);
    assert_eq!(game.board().highlighted_column(), None);
    assert_eq!(game.selected(), Some(3));
    // The arrows need a highlight to start from.
    assert_eq!(game.press(KEY_LEFT), Action::Redraw);
    assert_eq!(game.selected(), Some(3));
    // Enter still drops into the selected column.
    assert_eq!(game.press(KEY_ENTER), Action::Landed { row: 0, status: Status::Playing });
    assert_eq!(game.board().cell(3, 0), Some(Cell::Occupied(Colour::Red)));
}

#[test]
fn moves_alternate_and_are_counted() {
    let mut game = Game::new();
    assert_eq!(drop_into(&mut game, 3), Action::Landed { row: 0, status: Status::Playing });
    assert_eq!(game.turn(), Colour::Blue);
    assert_eq!(game.turns(), 1);
    assert_eq!(game.press(KEY_SPACE), Action::Landed { row: 1, status: Status::Playing });
    assert_eq!(game.turn(), Colour::Red);
    assert_eq!(game.turns(), 2);
    assert_eq!(game.board().cell(3, 0), Some(Cell::Occupied(Colour::Red)));
    assert_eq!(game.board().cell(3, 1), Some(Cell::Occupied(Colour::Blue)));
}

#[test]
fn full_column_keeps_the_turn() {
    let mut game = Game::new();
    for row in 0..6 {
        assert_eq!(drop_into(&mut game, 0), Action::Landed { row, status: Status::Playing });
    }
    assert_eq!(game.turn(), Colour::Red);
    let text = game.board().to_string();
    assert_eq!(drop_into(&mut game, 0), Action::Redraw);
    assert_eq!(game.turn(), Colour::Red);
    assert_eq!(game.turns(), 6);
    assert_eq!(game.status(), Status::Playing);
    assert_eq!(game.board().to_string(), text);
}

#[test]
fn winning_move_ends_the_game() {
    let mut game = Game::new();
    for column in [0, 0, 1, 1, 2, 2] {
        assert!(matches!(
            drop_into(&mut game, column),
            Action::Landed { status: Status::Playing, .. }
        ));
    }
    assert_eq!(
        drop_into(&mut game, 3),
        Action::Landed { row: 0, status: Status::Won(Colour::Red) }
    );
    assert_eq!(game.status(), Status::Won(Colour::Red));
    // The winning move is not counted and the turn stays with the winner.
    assert_eq!(game.turns(), 6);
    assert_eq!(game.turn(), Colour::Red);
    // Once the game is over every key leaves it and nothing changes.
    let text = game.board().to_string();
    for key in [KEY_ENTER, b'1', KEY_LEFT, b'x', KEY_QUIT] {
        assert_eq!(game.press(key), Action::Quit);
    }
    assert_eq!(game.board().to_string(), text);
    assert_eq!(game.status(), Status::Won(Colour::Red));
}

#[test]
fn blue_can_win() {
    let mut game = Game::new();
    for column in [0, 1, 0, 1, 0, 1, 2] {
        drop_into(&mut game, column);
    }
    assert_eq!(
        drop_into(&mut game, 1),
        Action::Landed { row: 3, status: Status::Won(Colour::Blue) }
    );
}

#[test]
fn full_board_without_a_line_is_a_draw() {
    let mut game = Game::new();
    for (turn, &column) in DRAWN_MOVES.iter().enumerate() {
        let expected = if turn % 2 == 0 { Colour::Red } else { Colour::Blue };
        assert_eq!(game.turn(), expected);
        assert_eq!(game.turns(), turn);
        assert_eq!(game.status(), Status::Playing);
        let action = drop_into(&mut game, column);
        let status = if turn == 41 { Status::Drawn } else { Status::Playing };
        assert!(matches!(action, Action::Landed { status: s, .. } if s == status), "move {turn}");
    }
    assert_eq!(game.status(), Status::Drawn);
    assert_eq!(game.turns(), 42);
    assert_eq!(
        game.board().to_string(),
        "RBRBRBB\nBRRRBRR\nBBBRBBB\nBBRRBBR\nRBRBRBB\nRRRBRRR\n"
    );
    assert_eq!(game.press(KEY_ENTER), Action::Quit);
}

#[test]
fn frames_show_the_fall_after_the_highlight_was_taken_away() {
    let mut game = Game::new();
    for _ in 0..2 {
        assert!(matches!(drop_into(&mut game, 3), Action::Landed { .. }));
    }
    // A digit, a key that takes the highlight away, then Enter.
    assert_eq!(game.press(b'4'), Action::Redraw);
    assert_eq!(game.press(b'x'), Action::Redraw);
    assert_eq!(game.board().highlighted_column(), None);
    assert_eq!(game.press(KEY_ENTER), Action::Landed { row: 2, status: Status::Playing });
    let board = *game.board();
    assert_eq!(board.animation_frame(0), board);
    let shown = board.animation_frame(1);
    assert_eq!(shown.cell(3, 2), Some(Cell::Empty));
    assert_eq!(shown.cell(3, 1), Some(Cell::Occupied(Colour::Red)));
    assert_eq!(shown.cell(3, 0), Some(Cell::Occupied(Colour::Red)));
    assert_eq!(board.animation_frame(2), board);
}

#[test]
fn frames_show_the_fall_while_another_column_is_highlighted() {
    let mut game = Game::new();
    for column in [5, 5] {
        drop_into(&mut game, column);
    }
    assert_eq!(drop_into(&mut game, 5), Action::Landed { row: 2, status: Status::Playing });
    // The highlight moves on before the frames are asked for.
    assert_eq!(game.press(b'1'), Action::Redraw);
    let board = *game.board();
    let shown = board.animation_frame(1);
    assert_eq!(shown.cell(5, 2), Some(Cell::Empty));
    assert_eq!(shown.cell(5, 1), Some(Cell::Occupied(Colour::Red)));
    for row in 0..6 {
        assert_eq!(shown.cell(0, row), Some(Cell::Empty));
    }
}
