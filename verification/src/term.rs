//! Terminal control-byte emission and text measurement.
//!
//! The editor never touches the terminal directly: it computes, over plain
//! values, exactly which bytes should be written, and appends them to a byte
//! buffer that the caller later hands to the terminal. The control sequences
//! themselves come from crossterm, display widths from ansi-width, and
//! grapheme segmentation from unicode-segmentation; each outside call is
//! confined to one trusted function here, and its result is named by an
//! uninterpreted function so the editor's contracts can speak about it
//! exactly.

use crossterm::Command;
use crossterm::cursor;
use crossterm::terminal;
use unicode_segmentation::UnicodeSegmentation;
use vstd::prelude::*;

verus! {

/// The concatenation of a sequence of strings.
pub open spec fn joined(parts: Seq<Seq<char>>) -> Seq<char>
    decreases parts.len(),
{
    if parts.len() == 0 {
        Seq::empty()
    } else {
        joined(parts.drop_last()) + parts.last()
    }
}

/// The control bytes crossterm emits to move the cursor to a column.
pub uninterp spec fn ansi_move_to_column(col: u16) -> Seq<u8>;

/// The control bytes crossterm emits to move the cursor up.
pub uninterp spec fn ansi_move_up(rows: u16) -> Seq<u8>;

/// The control bytes crossterm emits to move the cursor down.
pub uninterp spec fn ansi_move_down(rows: u16) -> Seq<u8>;

/// The control bytes crossterm emits to move the cursor right.
pub uninterp spec fn ansi_move_right(cols: u16) -> Seq<u8>;

/// The control bytes crossterm emits to move the cursor to a position.
pub uninterp spec fn ansi_move_to(col: u16, row: u16) -> Seq<u8>;

/// The control bytes crossterm emits to clear the whole screen (when `all`)
/// or from the cursor to the end of the screen.
pub uninterp spec fn ansi_clear(all: bool) -> Seq<u8>;

/// The display width ansi-width measures for a string: visual glyph width,
/// with ANSI escape sequences counted as zero.
pub uninterp spec fn display_width(s: Seq<char>) -> nat;

/// The extended grapheme clusters unicode-segmentation splits a string into,
/// in order.
pub uninterp spec fn grapheme_clusters(s: Seq<char>) -> Seq<Seq<char>>;

/// The text std's `String::from_utf8_lossy` decodes from arbitrary bytes.
pub uninterp spec fn lossy_decode(bytes: Seq<u8>) -> Seq<char>;

/// Relies on crossterm's `cursor::MoveToColumn`: `write_ansi` produces the
/// command's ANSI control sequence, a function of its arguments alone. The
/// encoding adds one to the zero-based column, so the largest `u16` is
/// excluded.
#[verifier::external_body]
pub fn queue_move_to_column(out: &mut Vec<u8>, col: u16)
    requires
        col < u16::MAX,
    ensures
        final(out)@ == old(out)@ + ansi_move_to_column(col),
{
    let mut s = String::new();
    let _ = cursor::MoveToColumn(col).write_ansi(&mut s);
    out.extend_from_slice(s.as_bytes());
}

/// Relies on crossterm's `cursor::MoveUp`.
#[verifier::external_body]
pub fn queue_move_up(out: &mut Vec<u8>, rows: u16)
    ensures
        final(out)@ == old(out)@ + ansi_move_up(rows),
{
    let mut s = String::new();
    let _ = cursor::MoveUp(rows).write_ansi(&mut s);
    out.extend_from_slice(s.as_bytes());
}

/// Relies on crossterm's `cursor::MoveDown`.
#[verifier::external_body]
pub fn queue_move_down(out: &mut Vec<u8>, rows: u16)
    ensures
        final(out)@ == old(out)@ + ansi_move_down(rows),
{
    let mut s = String::new();
    let _ = cursor::MoveDown(rows).write_ansi(&mut s);
    out.extend_from_slice(s.as_bytes());
}

/// Relies on crossterm's `cursor::MoveRight`.
#[verifier::external_body]
pub fn queue_move_right(out: &mut Vec<u8>, cols: u16)
    ensures
        final(out)@ == old(out)@ + ansi_move_right(cols),
{
    let mut s = String::new();
    let _ = cursor::MoveRight(cols).write_ansi(&mut s);
    out.extend_from_slice(s.as_bytes());
}

/// Relies on crossterm's `cursor::MoveTo`. The encoding adds one to each
/// zero-based coordinate, so the largest `u16` is excluded for both.
#[verifier::external_body]
pub fn queue_move_to(out: &mut Vec<u8>, col: u16, row: u16)
    requires
        col < u16::MAX,
        row < u16::MAX,
    ensures
        final(out)@ == old(out)@ + ansi_move_to(col, row),
{
    let mut s = String::new();
    let _ = cursor::MoveTo(col, row).write_ansi(&mut s);
    out.extend_from_slice(s.as_bytes());
}

/// Relies on crossterm's `terminal::Clear` with `ClearType::FromCursorDown`.
#[verifier::external_body]
pub fn queue_clear_down(out: &mut Vec<u8>)
    ensures
        final(out)@ == old(out)@ + ansi_clear(false),
{
    let mut s = String::new();
    let _ = terminal::Clear(terminal::ClearType::FromCursorDown).write_ansi(&mut s);
    out.extend_from_slice(s.as_bytes());
}

/// Relies on crossterm's `terminal::Clear` with `ClearType::All`.
#[verifier::external_body]
pub fn queue_clear_all(out: &mut Vec<u8>)
    ensures
        final(out)@ == old(out)@ + ansi_clear(true),
{
    let mut s = String::new();
    let _ = terminal::Clear(terminal::ClearType::All).write_ansi(&mut s);
    out.extend_from_slice(s.as_bytes());
}

/// Relies on ansi-width's `ansi_width`: the display width of a string, a
/// function of its characters alone; the empty string has width zero.
#[verifier::external_body]
pub fn measure_width(s: &str) -> (r: usize)
    ensures
        r as nat == display_width(s@),
        s@.len() == 0 ==> r == 0,
{
    ansi_width::ansi_width(s)
}

/// Relies on unicode-segmentation's `graphemes`: the number of extended
/// grapheme clusters of a string.
#[verifier::external_body]
pub fn count_graphemes(s: &str) -> (r: usize)
    ensures
        r as nat == grapheme_clusters(s@).len(),
        s@.len() > 0 ==> r > 0,
{
    s.graphemes(true).count()
}

/// Relies on unicode-segmentation's `graphemes`: the clusters themselves, in
/// order. The clusters partition the string they were split from.
#[verifier::external_body]
pub fn split_graphemes(s: &str) -> (r: Vec<String>)
    ensures
        r@.map_values(|c: String| c@) == grapheme_clusters(s@),
        joined(r@.map_values(|c: String| c@)) == s@,
        s@.len() > 0 ==> r@.len() > 0,
{
    s.graphemes(true).map(|g| g.to_string()).collect()
}

/// Relies on std's `String::push`: appends one character.
#[verifier::external_body]
pub fn push_char(s: &mut String, c: char)
    ensures
        final(s)@ == old(s)@.push(c),
{
    s.push(c);
}

/// Relies on std's `String::from_utf8_lossy`: the decoded text is a function
/// of the bytes alone.
#[verifier::external_body]
pub fn lossy_utf8(bytes: &[u8]) -> (r: String)
    ensures
        r@ == lossy_decode(bytes@),
{
    String::from_utf8_lossy(bytes).into_owned()
}

} // verus!
