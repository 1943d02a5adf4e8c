//! Text for the terminal: escape sequences, styles, graphemes and lines.
//!
//! Everything here is a thin layer over `termion`, `colored`,
//! `unicode_segmentation` and the standard library. The contracts of the
//! functions marked `external_body` are taken on trust from the sources of
//! those crates; the rest of the library is proved against them.

use vstd::prelude::*;
use colored::Colorize;
use unicode_segmentation::UnicodeSegmentation;

verus! {

/// The escape character that opens every control sequence.
pub const ESCAPE: char = '\x1b';

/// The decimal digit for `d`, which is below ten.
pub open spec fn digit(d: nat) -> char {
    if d == 0 {
        '0'
    } else if d == 1 {
        '1'
    } else if d == 2 {
        '2'
    } else if d == 3 {
        '3'
    } else if d == 4 {
        '4'
    } else if d == 5 {
        '5'
    } else if d == 6 {
        '6'
    } else if d == 7 {
        '7'
    } else if d == 8 {
        '8'
    } else {
        '9'
    }
}

/// `n` written in decimal digits, without sign or leading zeros.
pub open spec fn decimal(n: nat) -> Seq<char>
    decreases n,
{
    if n < 10 {
        seq![digit(n)]
    } else {
        decimal(n / 10).push(digit(n % 10))
    }
}

/// `text` between the sequence that switches the style `code` on and the one
/// that resets all styles, or `text` alone where styles are off.
pub open spec fn styled(code: Seq<char>, text: Seq<char>, on: bool) -> Seq<char> {
    if on {
        "\x1b["@ + code + "m"@ + text + "\x1b[0m"@
    } else {
        text
    }
}

/// The sequence that moves the cursor to `column` of `row`, both counted
/// from 1.
pub open spec fn goto_text(column: u16, row: u16) -> Seq<char> {
    "\x1b["@ + decimal(row as nat) + ";"@ + decimal(column as nat) + "H"@
}

/// The sequence that clears the whole screen.
pub open spec fn clear_text() -> Seq<char> {
    "\x1b[2J"@
}

/// The sequence that hides the cursor.
pub open spec fn hide_text() -> Seq<char> {
    "\x1b[?25l"@
}

/// Number of extended grapheme clusters of a text, as Unicode Standard Annex
/// 29 parts it.
pub uninterp spec fn grapheme_count(text: Seq<char>) -> usize;

/// `line` without the carriage return at its end, if it has one.
pub open spec fn without_return(line: Seq<char>) -> Seq<char> {
    if line.len() > 0 && line.last() == '\r' {
        line.drop_last()
    } else {
        line
    }
}

/// The lines of `text` from `start` on, while the line that starts there has
/// been read as far as `at` without meeting a line feed.
pub open spec fn lines_from(text: Seq<char>, start: int, at: int) -> Seq<Seq<char>>
    decreases text.len() - at,
{
    if at >= text.len() {
        if start < text.len() {
            seq![text.subrange(start, text.len() as int)]
        } else {
            Seq::empty()
        }
    } else if text[at] == '\n' {
        seq![without_return(text.subrange(start, at))] + lines_from(text, at + 1, at + 1)
    } else {
        lines_from(text, start, at + 1)
    }
}

/// The lines of a text. A line ends at a line feed, and neither the line
/// feed nor a carriage return just before it belongs to the line. What
/// follows the last line feed is a line too unless it is empty, and it keeps
/// a carriage return at its end.
pub open spec fn lines_of(text: Seq<char>) -> Seq<Seq<char>> {
    lines_from(text, 0, 0)
}

/// The empty text has no line.
pub proof fn law_empty_text_has_no_line()
    ensures
        lines_of(Seq::<char>::empty()) == Seq::<Seq<char>>::empty(),
{
}

/// A stretch without a line feed is read through: the lines are the same
/// from either end of it.
pub proof fn lemma_lines_read_on(text: Seq<char>, start: int, at: int, end: int)
    requires
        0 <= at <= end <= text.len(),
        forall|k: int| at <= k < end ==> text[k] != '\n',
    ensures
        lines_from(text, start, at) == lines_from(text, start, end),
    decreases end - at,
{
    if at < end {
        lemma_lines_read_on(text, start, at + 1, end);
    }
}

/// `UnicodeSegmentation::graphemes` with extended clusters, counted.
///
/// The count is a function of the text alone; nothing more is claimed of it.
#[verifier::external_body]
pub(crate) fn count_graphemes(text: &str) -> (count: usize)
    ensures
        count == grapheme_count(text@),
{
    UnicodeSegmentation::graphemes(text, true).count()
}

/// `str::lines`, each line as a `String` of its own.
///
/// The standard library documents that lines end at a line feed or at a
/// carriage return followed by a line feed, that the endings are not part of
/// the lines, that the last ending may be missing, and that a carriage return
/// without a line feed after it is part of the line. [`lines_of`] says that.
#[verifier::external_body]
pub(crate) fn split_lines(text: &str) -> (lines: Vec<String>)
    ensures
        lines@.len() == lines_of(text@).len(),
        forall|i: int| 0 <= i < lines@.len() ==> (#[trigger] lines@[i])@ == lines_of(text@)[i],
{
    text.lines().map(String::from).collect()
}

/// `ToString::to_string` of a `usize`: the number in decimal.
#[verifier::external_body]
pub(crate) fn number_text(n: usize) -> (text: String)
    ensures
        text@ == decimal(n as nat),
{
    n.to_string()
}

/// `Colorize::red` on a `&str`, shown through the `Display` of the
/// `ColoredString`.
///
/// Whether `colored` applies styles depends on the process (its override,
/// the environment, whether standard output is a terminal), so either the
/// text comes back as it is, or it comes back between the sequence for red
/// and the reset. A text that holds an escape character is left out: `colored`
/// rewrites resets that it finds inside. `colored` reads its switch more than
/// once while it writes, so this holds as long as no other thread changes the
/// override during the call; the library never changes it.
#[verifier::external_body]
pub(crate) fn red(text: &str) -> (shown: String)
    requires
        !text@.contains(ESCAPE),
    ensures
        shown@ == styled("31"@, text@, true) || shown@ == styled("31"@, text@, false),
{
    text.red().to_string()
}

/// `Colorize::blue` on a `&str`, shown through `Display`: as [`red`], with
/// the sequence for blue.
#[verifier::external_body]
pub(crate) fn blue(text: &str) -> (shown: String)
    requires
        !text@.contains(ESCAPE),
    ensures
        shown@ == styled("34"@, text@, true) || shown@ == styled("34"@, text@, false),
{
    text.blue().to_string()
}

/// `Colorize::yellow` on a `&str`, shown through `Display`: as [`red`], with
/// the sequence for yellow.
#[verifier::external_body]
pub(crate) fn yellow(text: &str) -> (shown: String)
    requires
        !text@.contains(ESCAPE),
    ensures
        shown@ == styled("33"@, text@, true) || shown@ == styled("33"@, text@, false),
{
    text.yellow().to_string()
}

/// `Colorize::dimmed` on a `&str`, shown through `Display`: as [`red`], with
/// the sequence for dimmed text.
#[verifier::external_body]
pub(crate) fn dimmed(text: &str) -> (shown: String)
    requires
        !text@.contains(ESCAPE),
    ensures
        shown@ == styled("2"@, text@, true) || shown@ == styled("2"@, text@, false),
{
    text.dimmed().to_string()
}

/// The `Display` of `termion::clear::All`.
#[verifier::external_body]
pub(crate) fn clear_all() -> (sequence: String)
    ensures
        sequence@ == clear_text(),
{
    termion::clear::All.to_string()
}

/// The `Display` of `termion::cursor::Hide`.
#[verifier::external_body]
pub(crate) fn hide_cursor() -> (sequence: String)
    ensures
        sequence@ == hide_text(),
{
    termion::cursor::Hide.to_string()
}

/// The `Display` of `termion::cursor::Goto`: the row, then the column.
///
/// `termion` asserts in debug builds that the position is not `(0, 0)`, so
/// that position is left out.
#[verifier::external_body]
pub(crate) fn goto(column: u16, row: u16) -> (sequence: String)
    requires
        column != 0 || row != 0,
    ensures
        sequence@ == goto_text(column, row),
{
    termion::cursor::Goto(column, row).to_string()
}

} // verus!
