use connect_four::board::Board;
use connect_four::grid::{BoardError, Cell, Colour, COLUMNS, ROWS};

/// Drops pieces into the given columns, Red first and then in turn.
fn play(columns: &[usize]) -> Board {
    let mut board = Board::new();
    let mut player = Colour::Red;
    for &column in columns {
        board.drop_piece(column, player).unwrap();
        player = if player == Colour::Red { Colour::Blue } else { Colour::Red };
    }
    board
}

const DRAWN_GAME: [usize; 42] = [
    5, 3, 2, 3, 1, 5, 3, 1, 0, 1, 4, 1, 2, 5, 0, 5, 6, 6, 2, 0, 6, 0, 4, 2, 3, 0, 3, 4, 2, 3, 2,
    6, 1, 1, 5, 4, 6, 6, 0, 4, 4, 5,
];

#[test]
fn new_board_is_empty() {
    let board = Board::new();
    for column in 0..COLUMNS {
        for row in 0..ROWS {
            assert_eq!(board.cell(column, row), Some(Cell::Empty));
        }
    }
    assert_eq!(board.highlighted_column(), None);
}

#[test]
fn cell_outside_grid_is_none() {
    let board = Board::new();
    assert_eq!(board.cell(7, 0), None);
    assert_eq!(board.cell(0, 6), None);
    assert_eq!(board.cell(usize::MAX, usize::MAX), None);
}

#[test]
fn drop_into_empty_column_lands_on_bottom_row() {
    for column in 0..COLUMNS {
        let mut board = Board::new();
        assert_eq!(board.drop_piece(column, Colour::Blue), Ok(0));
        assert_eq!(board.cell(column, 0), Some(Cell::Occupied(Colour::Blue)));
        assert_eq!(board.cell(column, 1), Some(Cell::Empty));
    }
}

#[test]
fn drop_fills_exactly_one_cell() {
    let mut board = play(&[3, 3, 4]);
    let before = board.animation_frame(0);
    assert_eq!(board.drop_piece(3, Colour::Blue), Ok(2));
    for column in 0..COLUMNS {
        for row in 0..ROWS {
            if (column, row) == (3, 2) {
                assert_eq!(before.cell(column, row), Some(Cell::Empty));
                assert_eq!(board.cell(column, row), Some(Cell::Occupied(Colour::Blue)));
            } else {
                assert_eq!(board.cell(column, row), before.cell(column, row));
            }
        }
    }
}

#[test]
fn drops_stack_and_seventh_is_refused() {
    for column in 0..COLUMNS {
        let mut board = Board::new();
        let mut player = Colour::Red;
        for row in 0..ROWS {
            assert_eq!(board.drop_piece(column, player), Ok(row));
            assert_eq!(board.cell(column, row), Some(Cell::Occupied(player)));
            player = if player == Colour::Red { Colour::Blue } else { Colour::Red };
        }
        let text = board.to_string();
        assert_eq!(board.drop_piece(column, player), Err(BoardError::ColumnFull));
        assert_eq!(board.to_string(), text);
    }
}

#[test]
fn shorter_stacks_land_in_order() {
    for count in 0..=ROWS {
        let mut board = Board::new();
        for row in 0..count {
            assert_eq!(board.drop_piece(2, Colour::Red), Ok(row));
        }
        if count < ROWS {
            assert_eq!(board.cell(2, count), Some(Cell::Empty));
        }
    }
}

#[test]
fn drop_outside_grid_is_invalid_column() {
    let mut board = play(&[0, 1]);
    let text = board.to_string();
    assert_eq!(board.drop_piece(7, Colour::Red), Err(BoardError::InvalidColumn));
    assert_eq!(board.drop_piece(usize::MAX, Colour::Blue), Err(BoardError::InvalidColumn));
    assert_eq!(board.to_string(), text);
}

#[test]
fn empty_board_has_no_winner() {
    let board = Board::new();
    for column in 0..COLUMNS {
        assert_eq!(board.check_win_at(column), None);
    }
}

#[test]
fn column_outside_grid_has_no_winner() {
    let board = play(&[0, 1, 0, 1, 0, 1, 0]);
    assert_eq!(board.check_win_at(0), Some(Colour::Red));
    assert_eq!(board.check_win_at(7), None);
    assert_eq!(board.check_win_at(usize::MAX), None);
}

#[test]
fn horizontal_win() {
    let mut board = Board::new();
    for column in 0..3 {
        assert_eq!(board.drop_piece(column, Colour::Red), Ok(0));
        assert_eq!(board.check_win_at(column), None);
        assert_eq!(board.drop_piece(column, Colour::Blue), Ok(1));
        assert_eq!(board.check_win_at(column), None);
    }
    assert_eq!(board.drop_piece(3, Colour::Red), Ok(0));
    assert_eq!(board.check_win_at(3), Some(Colour::Red));
}

#[test]
fn horizontal_win_completed_in_the_middle() {
    let mut board = Board::new();
    for column in [3, 4, 6] {
        board.drop_piece(column, Colour::Blue).unwrap();
        assert_eq!(board.check_win_at(column), None);
    }
    board.drop_piece(5, Colour::Blue).unwrap();
    assert_eq!(board.check_win_at(5), Some(Colour::Blue));
}

#[test]
fn three_in_a_row_is_no_win() {
    let mut board = Board::new();
    for column in [0, 1, 2] {
        board.drop_piece(column, Colour::Red).unwrap();
    }
    board.drop_piece(3, Colour::Blue).unwrap();
    for column in 0..4 {
        assert_eq!(board.check_win_at(column), None);
    }
}

#[test]
fn line_of_mixed_colours_is_no_win() {
    let board = play(&[0, 1, 2, 3, 4, 5, 6]);
    for column in 0..COLUMNS {
        assert_eq!(board.check_win_at(column), None);
    }
}

#[test]
fn vertical_win() {
    for column in 0..COLUMNS {
        let mut board = Board::new();
        for row in 0..3 {
            assert_eq!(board.drop_piece(column, Colour::Blue), Ok(row));
            assert_eq!(board.check_win_at(column), None);
        }
        assert_eq!(board.drop_piece(column, Colour::Blue), Ok(3));
        assert_eq!(board.check_win_at(column), Some(Colour::Blue));
    }
}

#[test]
fn vertical_win_above_other_pieces() {
    let mut board = Board::new();
    board.drop_piece(6, Colour::Blue).unwrap();
    board.drop_piece(6, Colour::Blue).unwrap();
    for _ in 0..3 {
        board.drop_piece(6, Colour::Red).unwrap();
        assert_eq!(board.check_win_at(6), None);
    }
    assert_eq!(board.drop_piece(6, Colour::Red), Ok(5));
    assert_eq!(board.check_win_at(6), Some(Colour::Red));
}

#[test]
fn rising_diagonal_win() {
    // Red ends on (0,0), (1,1), (2,2) and (3,3).
    let mut board = Board::new();
    let moves = [
        (0, Colour::Red),
        (1, Colour::Blue),
        (1, Colour::Red),
        (2, Colour::Blue),
        (2, Colour::Blue),
        (2, Colour::Red),
        (3, Colour::Blue),
        (3, Colour::Blue),
        (3, Colour::Blue),
    ];
    for (column, player) in moves {
        board.drop_piece(column, player).unwrap();
        assert_eq!(board.check_win_at(column), None);
    }
    assert_eq!(board.drop_piece(3, Colour::Red), Ok(3));
    assert_eq!(board.check_win_at(3), Some(Colour::Red));
}

#[test]
fn falling_diagonal_win() {
    // Blue ends on (3,3), (4,2), (5,1) and (6,0); the last piece is (4,2).
    let mut board = Board::new();
    let moves = [
        (6, Colour::Blue),
        (5, Colour::Red),
        (5, Colour::Blue),
        (3, Colour::Red),
        (3, Colour::Red),
        (3, Colour::Red),
        (3, Colour::Blue),
        (4, Colour::Red),
        (4, Colour::Red),
    ];
    for (column, player) in moves {
        board.drop_piece(column, player).unwrap();
        assert_eq!(board.check_win_at(column), None);
    }
    assert_eq!(board.drop_piece(4, Colour::Blue), Ok(2));
    assert_eq!(board.check_win_at(4), Some(Colour::Blue));
    assert_eq!(board.check_win_at(3), Some(Colour::Blue));
    assert_eq!(board.check_win_at(5), Some(Colour::Blue));
    assert_eq!(board.check_win_at(6), Some(Colour::Blue));
    assert_eq!(board.check_win_at(2), None);
}

#[test]
fn win_is_read_from_the_topmost_piece_only() {
    // Four red pieces lie across the bottom row, but a blue piece covers column 3.
    let mut board = Board::new();
    for column in 0..4 {
        board.drop_piece(column, Colour::Red).unwrap();
    }
    assert_eq!(board.check_win_at(3), Some(Colour::Red));
    board.drop_piece(3, Colour::Blue).unwrap();
    assert_eq!(board.check_win_at(3), None);
    assert_eq!(board.check_win_at(0), Some(Colour::Red));
}

#[test]
fn check_win_does_not_change_the_board() {
    let board = play(&[3, 3, 4, 4, 5, 5, 6]);
    let text = board.to_string();
    assert_eq!(board.check_win_at(6), Some(Colour::Red));
    assert_eq!(board.to_string(), text);
}

#[test]
fn full_board_without_a_line_has_no_winner_at_any_point() {
    let mut board = Board::new();
    let mut player = Colour::Red;
    for (turn, &column) in DRAWN_GAME.iter().enumerate() {
        assert!(board.drop_piece(column, player).is_ok(), "drop {turn}");
        assert_eq!(board.check_win_at(column), None, "drop {turn}");
        player = if player == Colour::Red { Colour::Blue } else { Colour::Red };
    }
    for column in 0..COLUMNS {
        assert_eq!(board.check_win_at(column), None);
        assert_eq!(board.drop_piece(column, player), Err(BoardError::ColumnFull));
    }
}

#[test]
fn rendering_of_the_empty_board() {
    let board = Board::new();
    assert_eq!(board.to_string(), ".......\n".repeat(6));
}

#[test]
fn rendering_puts_the_top_row_first() {
    let board = play(&[0, 0, 6]);
    assert_eq!(
        board.to_string(),
        ".......\n.......\n.......\n.......\nB......\nR.....R\n"
    );
}

#[test]
fn rendering_of_a_full_board() {
    let board = play(&DRAWN_GAME);
    assert_eq!(
        board.to_string(),
        "RBRBRBB\nBRRRBRR\nBBBRBBB\nBBRRBBR\nRBRBRBB\nRRRBRRR\n"
    );
}

#[test]
fn highlight_is_set_and_cleared() {
    let mut board = play(&[2, 3]);
    let text = board.to_string();
    for column in 0..COLUMNS {
        assert_eq!(board.set_highlighted_column(Some(column)), Ok(()));
        assert_eq!(board.highlighted_column(), Some(column));
    }
    assert_eq!(board.set_highlighted_column(None), Ok(()));
    assert_eq!(board.highlighted_column(), None);
    assert_eq!(board.to_string(), text);
}

#[test]
fn highlight_outside_grid_is_refused() {
    let mut board = Board::new();
    board.set_highlighted_column(Some(4)).unwrap();
    assert_eq!(board.set_highlighted_column(Some(7)), Err(BoardError::InvalidColumn));
    assert_eq!(board.highlighted_column(), Some(4));
}

#[test]
fn highlight_does_not_affect_the_rules() {
    let mut plain = Board::new();
    let mut lit = Board::new();
    lit.set_highlighted_column(Some(1)).unwrap();
    for column in [3, 3, 3, 3] {
        assert_eq!(plain.drop_piece(column, Colour::Red), lit.drop_piece(column, Colour::Red));
        assert_eq!(plain.check_win_at(column), lit.check_win_at(column));
    }
    assert_eq!(plain.to_string(), lit.to_string());
    assert_eq!(lit.highlighted_column(), Some(1));
}

/// Checks that `shown` is `board` with the top piece of `column`, `piece`, moved from `rest`
/// down to `rest - frame`.
fn assert_displaced(board: &Board, shown: &Board, column: usize, rest: usize, frame: usize, piece: Colour) {
    for c in 0..COLUMNS {
        for r in 0..ROWS {
            let expected = if c == column && r == rest - frame {
                Some(Cell::Occupied(piece))
            } else if c == column && r == rest {
                Some(Cell::Empty)
            } else {
                board.cell(c, r)
            };
            assert_eq!(shown.cell(c, r), expected, "frame {frame}, cell {c},{r}");
        }
    }
}

#[test]
fn frame_zero_shows_the_board() {
    let board = play(&[2, 5, 2, 2]);
    let shown = board.animation_frame(0);
    assert_eq!(shown, board);
    assert_eq!(shown.to_string(), board.to_string());
    assert_eq!(shown.cell(2, 2), Some(Cell::Occupied(Colour::Blue)));
}

#[test]
fn frame_zero_after_two_drops_shows_both_pieces() {
    let mut board = Board::new();
    assert_eq!(board.drop_piece(2, Colour::Red), Ok(0));
    assert_eq!(board.drop_piece(2, Colour::Blue), Ok(1));
    let shown = board.animation_frame(0);
    assert_eq!(shown.to_string(), ".......\n.......\n.......\n.......\n..B....\n..R....\n");
}

#[test]
fn frames_show_the_piece_on_lower_rows() {
    // Column 2 holds Red, Blue, Blue, Red from the bottom; the red piece on row 3 falls.
    let mut board = Board::new();
    board.drop_piece(2, Colour::Red).unwrap();
    board.drop_piece(2, Colour::Blue).unwrap();
    board.drop_piece(2, Colour::Blue).unwrap();
    board.drop_piece(5, Colour::Blue).unwrap();
    assert_eq!(board.drop_piece(2, Colour::Red), Ok(3));
    let text = board.to_string();
    for frame in 0..3 {
        let shown = board.animation_frame(frame);
        assert_displaced(&board, &shown, 2, 3, frame, Colour::Red);
        assert_eq!(shown.highlighted_column(), None);
    }
    assert_eq!(
        board.animation_frame(1).to_string(),
        ".......\n.......\n.......\n..R....\n..B....\n..R..B.\n"
    );
    assert_eq!(
        board.animation_frame(2).to_string(),
        ".......\n.......\n.......\n..B....\n..R....\n..R..B.\n"
    );
    assert_eq!(board.to_string(), text);
}

#[test]
fn frames_follow_the_last_drop_not_the_highlight() {
    let mut board = play(&[0, 0, 0, 4, 4]);
    assert_eq!(board.drop_piece(4, Colour::Blue), Ok(2));
    // Nothing highlighted, the column of the drop highlighted, another column highlighted.
    for highlight in [None, Some(4), Some(0), Some(6)] {
        board.set_highlighted_column(highlight).unwrap();
        for frame in 0..2 {
            let shown = board.animation_frame(frame);
            assert_displaced(&board, &shown, 4, 2, frame, Colour::Blue);
            assert_eq!(shown.highlighted_column(), highlight);
        }
        assert_eq!(board.animation_frame(2), board);
    }
}

#[test]
fn frames_follow_each_new_drop() {
    let mut board = play(&[1, 1, 6]);
    assert_eq!(board.drop_piece(1, Colour::Blue), Ok(2));
    assert_displaced(&board, &board.animation_frame(1), 1, 2, 1, Colour::Blue);
    assert_eq!(board.drop_piece(6, Colour::Red), Ok(1));
    assert_displaced(&board, &board.animation_frame(0), 6, 1, 0, Colour::Red);
    assert_eq!(board.animation_frame(1), board);
}

#[test]
fn refused_drop_keeps_the_falling_piece() {
    let mut board = play(&[3, 3, 3, 3, 3, 3, 5]);
    assert_eq!(board.drop_piece(5, Colour::Blue), Ok(1));
    let frame = board.animation_frame(0);
    assert_eq!(board.drop_piece(3, Colour::Red), Err(BoardError::ColumnFull));
    assert_eq!(board.drop_piece(9, Colour::Red), Err(BoardError::InvalidColumn));
    assert_eq!(board.animation_frame(0), frame);
    assert_displaced(&board, &board.animation_frame(0), 5, 1, 0, Colour::Blue);
}

#[test]
fn frame_of_the_resting_row_shows_the_board() {
    let mut board = play(&[4, 2, 2, 2, 2]);
    assert_eq!(board.animation_frame(3), board);
    assert_eq!(board.animation_frame(4), board);
    assert_eq!(board.animation_frame(usize::MAX), board);
    // A piece on the bottom row has no frame in which it is displaced.
    assert_eq!(board.drop_piece(5, Colour::Blue), Ok(0));
    assert_eq!(board.animation_frame(0), board);
    assert_eq!(board.animation_frame(1), board);
}

#[test]
fn frame_before_the_first_drop_shows_the_board() {
    let mut board = Board::new();
    assert_eq!(board.animation_frame(0), board);
    assert_eq!(board.animation_frame(1), board);
    board.set_highlighted_column(Some(0)).unwrap();
    assert_eq!(board.animation_frame(0), board);
    assert_eq!(board.animation_frame(3), board);
}

#[test]
fn frames_do_not_change_the_board() {
    let board = play(&[1, 1, 1, 1, 1]);
    let before = board;
    for frame in 0..6 {
        let _ = board.animation_frame(frame);
        assert_eq!(board, before);
    }
}
