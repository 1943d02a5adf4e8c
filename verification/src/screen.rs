//! What the game shows: which texts stand on which rows, and where each line
//! of a text starts.
//!
//! Nothing here writes to the terminal. A screen is a list of captions; each
//! caption is laid out into positioned lines; each positioned line becomes
//! one string that the caller writes as it is.

use vstd::prelude::*;
use vstd::string::StringExecFns;
use crate::board::Board;
use crate::grid::{Colour, Grid, COLUMNS, LINE_WIDTH, ROWS};
use crate::grid::{glyph, rendering, row_text};
use crate::term::{clear_text, decimal, digit, goto_text, grapheme_count, hide_text, lines_of, styled};
use crate::term::{lemma_lines_read_on, lines_from, without_return};
use crate::term::{blue, clear_all, count_graphemes, dimmed, goto, hide_cursor, number_text, red, split_lines, yellow};

verus! {

/// How far left of the middle of the screen the lines of the board start.
pub const BOARD_OFFSET: u16 = 11;

/// The least height of a terminal on which the screens can be laid out.
pub const MIN_HEIGHT: u16 = 12;

/// A text and the place where it is shown: its first line on `row`, the
/// next ones on the rows below. Each line starts `offset` columns to the
/// left of the middle of the screen, or, for `None`, half its own number of
/// graphemes to the left of it.
#[derive(Debug, PartialEq, Eq)]
pub struct Caption {
    pub text: String,
    pub offset: Option<u16>,
    pub row: u16,
}

/// A caption as contracts see it.
pub struct CaptionView {
    pub text: Seq<char>,
    pub offset: Option<u16>,
    pub row: u16,
}

impl View for Caption {
    type V = CaptionView;

    open spec fn view(&self) -> CaptionView {
        CaptionView { text: self.text@, offset: self.offset, row: self.row }
    }
}

/// One line of text and the position of its first character.
#[derive(Debug, PartialEq, Eq)]
pub struct Placement {
    pub column: u16,
    pub row: u16,
    pub text: String,
}

/// A placement as contracts see it.
pub struct PlacementView {
    pub column: u16,
    pub row: u16,
    pub text: Seq<char>,
}

impl View for Placement {
    type V = PlacementView;

    open spec fn view(&self) -> PlacementView {
        PlacementView { column: self.column, row: self.row, text: self.text@ }
    }
}

/// The captions of a list as contracts see them.
pub open spec fn caption_views(captions: Seq<Caption>) -> Seq<CaptionView> {
    captions.map_values(|caption: Caption| caption@)
}

/// The placements of a list as contracts see them.
pub open spec fn placement_views(placements: Seq<Placement>) -> Seq<PlacementView> {
    placements.map_values(|placement: Placement| placement@)
}

/// How far left of the middle a line starts: the offset given, or half the
/// number of its graphemes, cut to sixteen bits.
pub open spec fn inset(offset: Option<u16>, graphemes: usize) -> u16 {
    match offset {
        Some(columns) => columns,
        None => (graphemes / 2) as u16,
    }
}

/// The column at which a line starts on a screen `width` columns wide.
pub fn centred_column(width: u16, offset: Option<u16>, graphemes: usize) -> (column: u16)
    requires
        inset(offset, graphemes) <= width / 2,
    ensures
        column == width / 2 - inset(offset, graphemes),
{
    let columns = match offset {
        Some(columns) => columns,
        None => #[verifier::truncate]
        ((graphemes / 2) as u16),
    };
    width / 2 - columns
}

/// The row of line number `index` of a caption that starts on row `top`:
/// the index is cut to sixteen bits and added.
pub open spec fn line_row(top: u16, index: usize) -> int {
    top + (index as u16)
}

/// A line of `graphemes` graphemes, line number `index` of a caption, fits on
/// the screen: it does not start left of the first column, and its row can
/// be counted in sixteen bits.
pub open spec fn fits(width: u16, offset: Option<u16>, top: u16, index: usize, graphemes: usize) -> bool {
    inset(offset, graphemes) <= width / 2 && line_row(top, index) <= u16::MAX
}

/// Where a line of `graphemes` graphemes, line number `index` of a caption,
/// is put.
pub open spec fn placed_at(
    width: u16,
    offset: Option<u16>,
    top: u16,
    index: usize,
    line: Seq<char>,
    graphemes: usize,
) -> PlacementView {
    PlacementView {
        column: (width / 2 - inset(offset, graphemes)) as u16,
        row: line_row(top, index) as u16,
        text: line,
    }
}

/// Puts one line of a caption: `line` is line number `index` of a caption
/// that starts on row `top`, and has `graphemes` graphemes.
///
/// The result is `None` exactly when the line does not fit.
pub fn place_line(
    width: u16,
    offset: Option<u16>,
    top: u16,
    index: usize,
    line: &str,
    graphemes: usize,
) -> (placed: Option<Placement>)
    ensures
        placed is Some <==> fits(width, offset, top, index, graphemes),
        placed matches Some(put) ==> put@ == placed_at(
            width,
            offset,
            top,
            index,
            line@,
            graphemes,
        ),
{
    let columns = match offset {
        Some(columns) => columns,
        None => #[verifier::truncate]
        ((graphemes / 2) as u16),
    };
    let down = #[verifier::truncate]
    (index as u16);
    if columns > width / 2 || down > u16::MAX - top {
        return None;
    }
    Some(
        Placement {
            column: centred_column(width, offset, graphemes),
            row: top + down,
            text: String::from_str(line),
        },
    )
}

/// Every line of `lines` fits on the screen.
pub open spec fn all_fit(width: u16, offset: Option<u16>, top: u16, lines: Seq<Seq<char>>) -> bool {
    forall|i: int|
        0 <= i < lines.len() ==> fits(
            width,
            offset,
            top,
            i as usize,
            grapheme_count(#[trigger] lines[i]),
        )
}

/// Where the lines of `lines` are put, one below the other from `top`.
pub open spec fn placements(
    width: u16,
    offset: Option<u16>,
    top: u16,
    lines: Seq<Seq<char>>,
) -> Seq<PlacementView> {
    Seq::new(
        lines.len(),
        |i: int| placed_at(width, offset, top, i as usize, lines[i], grapheme_count(lines[i])),
    )
}

/// Lays a caption out on a screen `width` columns wide: one placement for
/// each line of its text, in order.
///
/// The result is `None` exactly when some line does not fit.
pub fn place_lines(width: u16, caption: &Caption) -> (placed: Option<Vec<Placement>>)
    ensures
        placed is Some <==> all_fit(width, caption.offset, caption.row, lines_of(caption.text@)),
        placed matches Some(lines) ==> placement_views(lines@) == placements(
            width,
            caption.offset,
            caption.row,
            lines_of(caption.text@),
        ),
{
    let lines = split_lines(caption.text.as_str());
    let ghost texts = lines_of(caption.text@);
    let mut placed: Vec<Placement> = Vec::new();
    let mut index: usize = 0;
    while index < lines.len()
        invariant
            index <= lines.len(),
            texts == lines_of(caption.text@),
            lines@.len() == texts.len(),
            forall|i: int| 0 <= i < lines@.len() ==> (#[trigger] lines@[i])@ == texts[i],
            placed@.len() == index,
            forall|i: int|
                0 <= i < index ==> fits(
                    width,
                    caption.offset,
                    caption.row,
                    i as usize,
                    grapheme_count(#[trigger] texts[i]),
                ),
            forall|i: int|
                0 <= i < index ==> (#[trigger] placed@[i])@ == placed_at(
                    width,
                    caption.offset,
                    caption.row,
                    i as usize,
                    texts[i],
                    grapheme_count(texts[i]),
                ),
        decreases lines.len() - index,
    {
        let line = lines[index].as_str();
        let graphemes = count_graphemes(line);
        match place_line(width, caption.offset, caption.row, index, line, graphemes) {
            Some(put) => placed.push(put),
            None => {
                assert(!fits(
                    width,
                    caption.offset,
                    caption.row,
                    index,
                    grapheme_count(texts[index as int]),
                ));
                return None;
            },
        }
        index = index + 1;
    }
    assert(placement_views(placed@) =~= placements(width, caption.offset, caption.row, texts));
    Some(placed)
}

/// The string that shows a placement: the sequence that moves the cursor to
/// its position, then its text. The position `(0, 0)` cannot be moved to.
pub fn positioned(placement: &Placement) -> (shown: String)
    requires
        placement.column != 0 || placement.row != 0,
    ensures
        shown@ == goto_text(placement.column, placement.row) + placement.text@,
{
    let mut shown = goto(placement.column, placement.row);
    shown.append(placement.text.as_str());
    shown
}

/// The name of a player in the player's colour, or plain where styles are
/// off.
pub open spec fn player_label(player: Colour, on: bool) -> Seq<char> {
    match player {
        Colour::Red => styled("31"@, "Red"@, on),
        Colour::Blue => styled("34"@, "Blue"@, on),
    }
}

/// The number of the highlighted column, counted from 1, in yellow or
/// plain; nothing where no column is highlighted.
pub open spec fn column_label(highlighted: Option<usize>, on: bool) -> Seq<char> {
    match highlighted {
        Some(column) => styled("33"@, decimal((column + 1) as nat), on),
        None => Seq::empty(),
    }
}

/// The caption that clears the screen and hides the cursor.
pub open spec fn clear_caption() -> CaptionView {
    CaptionView { text: clear_text() + hide_text(), offset: None, row: 1 }
}

/// The caption that shows the board.
pub open spec fn board_caption(height: u16, grid: Grid) -> CaptionView {
    CaptionView {
        text: rendering(grid),
        offset: Some(BOARD_OFFSET),
        row: (height / 2 - 4) as u16,
    }
}

/// The text of a grid from line number `line` on has one line for each row
/// that is left, and each is the glyphs of its row.
proof fn lemma_board_lines_from(g: Grid, line: int)
    requires
        0 <= line <= ROWS,
    ensures
        lines_from(rendering(g), line * LINE_WIDTH, line * LINE_WIDTH) == Seq::new(
            (ROWS - line) as nat,
            |i: int| row_text(g, ROWS - 1 - (line + i)),
        ),
    decreases ROWS - line,
{
    let text = rendering(g);
    let start = line * LINE_WIDTH;
    let rows = Seq::new((ROWS - line) as nat, |i: int| row_text(g, ROWS - 1 - (line + i)));
    if line == ROWS {
        assert(lines_from(text, start, start) =~= rows);
    } else {
        let end = start + COLUMNS;
        assert forall|k: int| start <= k < end implies text[k] != '\n' && text[k] == glyph(
            g[k - start][ROWS - 1 - line],
        ) by {
            assert(k % (LINE_WIDTH as int) == k - start && k / (LINE_WIDTH as int) == line);
        }
        assert(end % (LINE_WIDTH as int) == COLUMNS);
        assert(text[end] == '\n');
        lemma_lines_read_on(text, start, start, end);
        let first = text.subrange(start, end);
        assert(first =~= row_text(g, ROWS - 1 - line));
        assert(first.last() == text[end - 1]);
        assert(without_return(first) == first);
        lemma_board_lines_from(g, line + 1);
        assert(lines_from(text, start, end) == seq![first] + lines_from(text, end + 1, end + 1));
        assert(seq![first] + lines_from(text, end + 1, end + 1) =~= rows);
    }
}

/// The text of a grid has one line for each row, the top row first, and each
/// line is the glyphs of its row.
pub proof fn law_board_text_lines(g: Grid)
    ensures
        lines_of(rendering(g)) == Seq::new(ROWS as nat, |i: int| row_text(g, ROWS - 1 - i)),
{
    lemma_board_lines_from(g, 0);
    assert(Seq::new((ROWS - 0) as nat, |i: int| row_text(g, ROWS - 1 - (0 + i))) =~= Seq::new(
        ROWS as nat,
        |i: int| row_text(g, ROWS - 1 - i),
    ));
}

/// On a screen wide and high enough the board fits: its rows are put one
/// below the other from the row of its caption, the top row first, each
/// starting [`BOARD_OFFSET`] columns left of the middle.
pub proof fn law_board_is_placed(width: u16, height: u16, g: Grid)
    requires
        width / 2 >= BOARD_OFFSET,
        height >= MIN_HEIGHT,
    ensures
        ({
            let caption = board_caption(height, g);
            let lines = lines_of(caption.text);
            &&& lines.len() == ROWS
            &&& all_fit(width, caption.offset, caption.row, lines)
            &&& placements(width, caption.offset, caption.row, lines) == Seq::new(
                ROWS as nat,
                |i: int|
                    PlacementView {
                        column: (width / 2 - BOARD_OFFSET) as u16,
                        row: (height / 2 - 4 + i) as u16,
                        text: row_text(g, ROWS - 1 - i),
                    },
            )
        }),
{
    law_board_text_lines(g);
    let caption = board_caption(height, g);
    let lines = lines_of(caption.text);
    assert forall|i: int| 0 <= i < lines.len() implies fits(
        width,
        caption.offset,
        caption.row,
        i as usize,
        grapheme_count(#[trigger] lines[i]),
    ) by {
        assert((i as usize) as u16 == i);
    }
    let placed = placements(width, caption.offset, caption.row, lines);
    let rows = Seq::new(
        ROWS as nat,
        |i: int|
            PlacementView {
                column: (width / 2 - BOARD_OFFSET) as u16,
                row: (height / 2 - 4 + i) as u16,
                text: row_text(g, ROWS - 1 - i),
            },
    );
    assert forall|i: int| 0 <= i < ROWS implies #[trigger] placed[i] == rows[i] by {
        assert((i as usize) as u16 == i);
    }
    assert(placed =~= rows);
}

/// The screen during a turn, from the top: the clearing of the screen, whose
/// turn it is, the board, the selected column, the hint to confirm where
/// `confirm` is set, and how to quit, which also parks the cursor on the
/// last row.
pub open spec fn turn_layout(
    height: u16,
    grid: Grid,
    confirm: bool,
    player: Seq<char>,
    column: Seq<char>,
    quit: Seq<char>,
) -> Seq<CaptionView> {
    let half = height / 2;
    seq![
        clear_caption(),
        CaptionView {
            text: "It's "@ + player + "'s turn!"@,
            offset: Some(8u16),
            row: (half - 6) as u16,
        },
        board_caption(height, grid),
        CaptionView {
            text: "Select column: "@ + column,
            offset: Some(8u16),
            row: (half + 5) as u16,
        },
    ] + (if confirm {
        seq![
            CaptionView {
                text: "Press enter to confirm."@,
                offset: None,
                row: (half + 6) as u16,
            },
        ]
    } else {
        Seq::empty()
    }) + seq![
        CaptionView {
            text: quit + goto_text(0, height),
            offset: Some(16u16),
            row: (half + 8) as u16,
        },
    ]
}

/// The screen at the end of a game, from the top: the clearing of the
/// screen, the headline, the board, and the request for a key, which also
/// parks the cursor on the last row.
pub open spec fn end_layout(
    height: u16,
    grid: Grid,
    headline: Seq<char>,
    headline_offset: u16,
    any_key: Seq<char>,
) -> Seq<CaptionView> {
    let half = height / 2;
    seq![
        clear_caption(),
        CaptionView { text: headline, offset: Some(headline_offset), row: (half - 6) as u16 },
        board_caption(height, grid),
        CaptionView {
            text: any_key + goto_text(0, height),
            offset: Some(10u16),
            row: (half + 5) as u16,
        },
    ]
}

/// `first` followed by `second`.
fn join(first: &str, second: &str) -> (text: String)
    ensures
        text@ == first@ + second@,
{
    let mut text = String::from_str(first);
    text.append(second);
    text
}

/// The caption that clears the screen and hides the cursor.
fn clearing() -> (caption: Caption)
    ensures
        caption@ == clear_caption(),
{
    let mut text = clear_all();
    text.append(hide_cursor().as_str());
    Caption { text, offset: None, row: 1 }
}

/// The caption that shows `board`.
fn board_shown(height: u16, board: &Board) -> (caption: Caption)
    requires
        height >= MIN_HEIGHT,
    ensures
        caption@ == board_caption(height, board@),
{
    Caption { text: board.to_string(), offset: Some(BOARD_OFFSET), row: height / 2 - 4 }
}

/// The screen during a turn, built from texts already styled: `player` names
/// the player to move, `column` the highlighted column, `quit` says how to
/// quit.
///
/// The hint to confirm is shown where the board highlights a column.
pub fn turn_screen_with(height: u16, board: &Board, player: &str, column: &str, quit: &str) -> (captions:
    Vec<Caption>)
    requires
        height >= MIN_HEIGHT,
    ensures
        caption_views(captions@) == turn_layout(
            height,
            board@,
            board.highlight() is Some,
            player@,
            column@,
            quit@,
        ),
{
    let half = height / 2;
    let mut captions: Vec<Caption> = Vec::new();
    captions.push(clearing());
    let mut banner = join("It's ", player);
    banner.append("'s turn!");
    captions.push(Caption { text: banner, offset: Some(8), row: half - 6 });
    captions.push(board_shown(height, board));
    captions.push(Caption { text: join("Select column: ", column), offset: Some(8), row: half + 5 });
    if board.highlighted_column().is_some() {
        captions.push(
            Caption {
                text: String::from_str("Press enter to confirm."),
                offset: None,
                row: half + 6,
            },
        );
    }
    captions.push(
        Caption { text: join(quit, goto(0, height).as_str()), offset: Some(16), row: half + 8 },
    );
    assert(caption_views(captions@) =~= turn_layout(
        height,
        board@,
        board.highlight() is Some,
        player@,
        column@,
        quit@,
    ));
    captions
}

/// The screen at the end of a game, built from texts already styled:
/// `headline` says how the game ended and starts `headline_offset` columns
/// left of the middle, `any_key` asks for a key.
pub fn end_screen_with(
    height: u16,
    board: &Board,
    headline: &str,
    headline_offset: u16,
    any_key: &str,
) -> (captions: Vec<Caption>)
    requires
        height >= MIN_HEIGHT,
    ensures
        caption_views(captions@) == end_layout(
            height,
            board@,
            headline@,
            headline_offset,
            any_key@,
        ),
{
    let half = height / 2;
    let mut captions: Vec<Caption> = Vec::new();
    captions.push(clearing());
    captions.push(
        Caption {
            text: String::from_str(headline),
            offset: Some(headline_offset),
            row: half - 6,
        },
    );
    captions.push(board_shown(height, board));
    captions.push(
        Caption { text: join(any_key, goto(0, height).as_str()), offset: Some(10), row: half + 5 },
    );
    assert(caption_views(captions@) =~= end_layout(
        height,
        board@,
        headline@,
        headline_offset,
        any_key@,
    ));
    captions
}

/// The name of `player` in the player's colour, if styles are on.
fn player_text(player: Colour) -> (text: String)
    ensures
        text@ == player_label(player, true) || text@ == player_label(player, false),
{
    proof {
        reveal_strlit("Red");
        reveal_strlit("Blue");
    }
    match player {
        Colour::Red => red("Red"),
        Colour::Blue => blue("Blue"),
    }
}

/// The number of the highlighted column in yellow, if styles are on.
fn column_text(highlighted: Option<usize>) -> (text: String)
    requires
        highlighted matches Some(column) ==> column < COLUMNS,
    ensures
        text@ == column_label(highlighted, true) || text@ == column_label(highlighted, false),
{
    match highlighted {
        Some(column) => {
            let number = number_text(column + 1);
            assert(number@ =~= seq![digit((column + 1) as nat)]);
            yellow(number.as_str())
        },
        None => String::new(),
    }
}

/// The screen during the turn of `turn`.
///
/// Each styled text is shown either styled or plain, as `colored` decides
/// for the process: the screen is the layout for some choice of the three.
pub fn turn_screen(height: u16, board: &Board, turn: Colour) -> (captions: Vec<Caption>)
    requires
        height >= MIN_HEIGHT,
    ensures
        exists|player: bool, column: bool, quit: bool|
            caption_views(captions@) == #[trigger] turn_layout(
                height,
                board@,
                board.highlight() is Some,
                player_label(turn, player),
                column_label(board.highlight(), column),
                styled("2"@, "Press Ctrl+C to quit at any time."@, quit),
            ),
{
    proof {
        use_type_invariant(board);
        reveal_strlit("Press Ctrl+C to quit at any time.");
    }
    let player = player_text(turn);
    let column = column_text(board.highlighted_column());
    let quit = dimmed("Press Ctrl+C to quit at any time.");
    let captions = turn_screen_with(height, board, player.as_str(), column.as_str(), quit.as_str());
    proof {
        let p = player@ == player_label(turn, true);
        let c = column@ == column_label(board.highlight(), true);
        let q = quit@ == styled("2"@, "Press Ctrl+C to quit at any time."@, true);
        assert(caption_views(captions@) == turn_layout(
            height,
            board@,
            board.highlight() is Some,
            player_label(turn, p),
            column_label(board.highlight(), c),
            styled("2"@, "Press Ctrl+C to quit at any time."@, q),
        ));
    }
    captions
}

/// The screen that tells that `winner` has won.
///
/// Each styled text is shown either styled or plain, as `colored` decides
/// for the process.
pub fn win_screen(height: u16, board: &Board, winner: Colour) -> (captions: Vec<Caption>)
    requires
        height >= MIN_HEIGHT,
    ensures
        exists|player: bool, any_key: bool|
            caption_views(captions@) == #[trigger] end_layout(
                height,
                board@,
                player_label(winner, player) + " wins!"@,
                4,
                styled("2"@, "Press any key to quit."@, any_key),
            ),
{
    proof {
        reveal_strlit("Press any key to quit.");
    }
    let player = player_text(winner);
    let headline = join(player.as_str(), " wins!");
    let any_key = dimmed("Press any key to quit.");
    let captions = end_screen_with(height, board, headline.as_str(), 4, any_key.as_str());
    proof {
        let p = player@ == player_label(winner, true);
        let k = any_key@ == styled("2"@, "Press any key to quit."@, true);
        assert(caption_views(captions@) == end_layout(
            height,
            board@,
            player_label(winner, p) + " wins!"@,
            4,
            styled("2"@, "Press any key to quit."@, k),
        ));
    }
    captions
}

/// The screen that tells that the game is drawn.
///
/// Each styled text is shown either styled or plain, as `colored` decides
/// for the process.
pub fn draw_screen(height: u16, board: &Board) -> (captions: Vec<Caption>)
    requires
        height >= MIN_HEIGHT,
    ensures
        exists|draw: bool, any_key: bool|
            caption_views(captions@) == #[trigger] end_layout(
                height,
                board@,
                styled("2"@, "It's a draw!"@, draw) + goto_text(0, height),
                6,
                styled("2"@, "Press any key to quit."@, any_key),
            ),
{
    proof {
        reveal_strlit("It's a draw!");
        reveal_strlit("Press any key to quit.");
    }
    let draw = dimmed("It's a draw!");
    let headline = join(draw.as_str(), goto(0, height).as_str());
    let any_key = dimmed("Press any key to quit.");
    let captions = end_screen_with(height, board, headline.as_str(), 6, any_key.as_str());
    proof {
        let d = draw@ == styled("2"@, "It's a draw!"@, true);
        let k = any_key@ == styled("2"@, "Press any key to quit."@, true);
        assert(caption_views(captions@) == end_layout(
            height,
            board@,
            styled("2"@, "It's a draw!"@, d) + goto_text(0, height),
            6,
            styled("2"@, "Press any key to quit."@, k),
        ));
    }
    captions
}

} // verus!
