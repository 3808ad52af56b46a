//! The line-editing and rendering state machine.
//!
//! `LineState` owns the edit buffer (a sequence of grapheme clusters), the
//! cursor, the prompt and the terminal geometry. It consumes decoded key and
//! resize events and appends the exact terminal control bytes it wants
//! written to a byte buffer; the unverified orchestrator hands those bytes to
//! the terminal. Rendering uses a two-hop scheme that needs no absolute row
//! tracking: move to the beginning of the wrapped line, then move forward to
//! the wanted column.

use vstd::prelude::*;
use vstd::seq_lib::lemma_concat_associative;
use vstd::utf8::encode_utf8;

use crate::history::History;
use crate::history::nav_pos;
use crate::history::nav_result;
use crate::term::ansi_clear;
use crate::term::ansi_move_right;
use crate::term::ansi_move_to;
use crate::term::ansi_move_to_column;
use crate::term::ansi_move_up;
use crate::term::ansi_move_down;
use crate::term::display_width;
use crate::term::grapheme_clusters;
use crate::term::joined;
use crate::term::lossy_decode;
use crate::term::count_graphemes;
use crate::term::lossy_utf8;
use crate::term::measure_width;
use crate::term::push_char;
use crate::term::queue_clear_all;
use crate::term::queue_clear_down;
use crate::term::queue_move_down;
use crate::term::queue_move_right;
use crate::term::queue_move_to;
use crate::term::queue_move_to_column;
use crate::term::queue_move_up;
use crate::term::split_graphemes;
use crate::ReadlineEvent;

verus! {

/// A decoded key.
#[derive(Clone, Copy, Debug, PartialEq, Eq)]
pub enum KeyCode {
    Char(char),
    Enter,
    Backspace,
    Delete,
    Left,
    Right,
    Home,
    End,
    Up,
    Down,
}

/// A decoded terminal event: a key (with whether Control alone was held, and
/// whether this is a press rather than a release or repeat), or a resize to
/// new (columns, rows).
#[derive(Clone, Copy, Debug, PartialEq, Eq)]
pub enum Event {
    Key { code: KeyCode, control: bool, press: bool },
    Resize(u16, u16),
}

/// Addition on the naturals, saturating at the largest `usize`.
pub open spec fn sat_add_spec(a: nat, b: nat) -> nat {
    if a + b > usize::MAX as nat {
        usize::MAX as nat
    } else {
        a + b
    }
}

/// One less, saturating at zero.
pub open spec fn sub1(a: nat) -> nat {
    if a > 0 {
        (a - 1) as nat
    } else {
        0
    }
}

/// A natural clamped into `u16`.
pub open spec fn clamp_u16_spec(a: nat) -> u16 {
    if a > u16::MAX as nat {
        u16::MAX
    } else {
        a as u16
    }
}

/// The views of a sequence of grapheme-cluster strings.
pub open spec fn cluster_views(line: Seq<String>) -> Seq<Seq<char>> {
    line.map_values(|s: String| s@)
}

/// The first index at or after `i` whose cluster is not a space, or the
/// buffer length.
pub open spec fn skip_spaces(cs: Seq<Seq<char>>, i: int) -> int
    decreases cs.len() - i,
{
    if i < 0 || i >= cs.len() {
        i
    } else if cs[i] == " "@ {
        skip_spaces(cs, i + 1)
    } else {
        i
    }
}

/// The first index at or after `i` whose cluster is a space, or the buffer
/// length.
pub open spec fn find_space(cs: Seq<Seq<char>>, i: int) -> int
    decreases cs.len() - i,
{
    if i < 0 || i >= cs.len() {
        cs.len() as int
    } else if cs[i] == " "@ {
        i
    } else {
        find_space(cs, i + 1)
    }
}

/// The last index at or before `j` whose cluster is not a space, or -1.
pub open spec fn rskip_spaces(cs: Seq<Seq<char>>, j: int) -> int
    decreases j + 1,
{
    if j < 0 || j >= cs.len() {
        if j < 0 {
            -1
        } else {
            j
        }
    } else if cs[j] == " "@ {
        rskip_spaces(cs, j - 1)
    } else {
        j
    }
}

/// The last index at or before `j` whose cluster is a space, or -1.
pub open spec fn rfind_space(cs: Seq<Seq<char>>, j: int) -> int
    decreases j + 1,
{
    if j < 0 || j >= cs.len() {
        -1
    } else if cs[j] == " "@ {
        j
    } else {
        rfind_space(cs, j - 1)
    }
}

/// Where word-right stops from cursor `cur`: skip the run of spaces at the
/// cursor, then stop on the next space; end of buffer if there is none.
pub open spec fn word_right_pos(cs: Seq<Seq<char>>, cur: int) -> int {
    find_space(cs, skip_spaces(cs, cur))
}

/// Where word-left stops from cursor `cur`: skip the run of spaces left of
/// the cursor, then stop just right of the previous space; 0 if there is
/// none.
pub open spec fn word_left_pos(cs: Seq<Seq<char>>, cur: int) -> int {
    let p = rfind_space(cs, rskip_spaces(cs, cur - 1));
    if p >= 0 {
        p + 1
    } else {
        0
    }
}

/// `skip_spaces` stays within `[i, len]`.
proof fn lemma_skip_spaces_bounds(cs: Seq<Seq<char>>, i: int)
    requires
        0 <= i <= cs.len(),
    ensures
        i <= skip_spaces(cs, i) <= cs.len(),
    decreases cs.len() - i,
{
    if i < cs.len() && cs[i] == " "@ {
        lemma_skip_spaces_bounds(cs, i + 1);
    }
}

/// `find_space` stays within `[i, len]`.
proof fn lemma_find_space_bounds(cs: Seq<Seq<char>>, i: int)
    requires
        0 <= i <= cs.len(),
    ensures
        i <= find_space(cs, i) <= cs.len(),
    decreases cs.len() - i,
{
    if i < cs.len() && cs[i] != " "@ {
        lemma_find_space_bounds(cs, i + 1);
    }
}

/// `rskip_spaces` stays within `[-1, j]`.
proof fn lemma_rskip_spaces_bounds(cs: Seq<Seq<char>>, j: int)
    requires
        -1 <= j < cs.len(),
    ensures
        -1 <= rskip_spaces(cs, j) <= j,
    decreases j + 1,
{
    if 0 <= j && cs[j] == " "@ {
        lemma_rskip_spaces_bounds(cs, j - 1);
    }
}

/// `rfind_space` stays within `[-1, j]`.
proof fn lemma_rfind_space_bounds(cs: Seq<Seq<char>>, j: int)
    requires
        -1 <= j < cs.len(),
    ensures
        -1 <= rfind_space(cs, j) <= j,
    decreases j + 1,
{
    if 0 <= j && cs[j] != " "@ {
        lemma_rfind_space_bounds(cs, j - 1);
    }
}

/// Word-right from the end of the buffer stays at the end: once the cursor
/// has reached the end of the line, further word-right moves are no-ops.
pub proof fn lemma_word_right_at_end(cs: Seq<Seq<char>>)
    ensures
        word_right_pos(cs, cs.len() as int) == cs.len(),
{
}

/// Word-right makes strict progress from any cursor before the end, and
/// never overshoots the end.
pub proof fn lemma_word_right_progress(cs: Seq<Seq<char>>, cur: int)
    requires
        0 <= cur < cs.len(),
    ensures
        cur < word_right_pos(cs, cur) <= cs.len(),
{
    lemma_skip_spaces_bounds(cs, cur);
    if cs[cur] == " "@ {
        lemma_skip_spaces_bounds(cs, cur + 1);
        lemma_find_space_bounds(cs, skip_spaces(cs, cur + 1));
    } else {
        lemma_find_space_bounds(cs, cur + 1);
    }
}

/// Word-left from the start of the buffer stays at the start: once the
/// cursor has reached 0, further word-left moves are no-ops.
pub proof fn lemma_word_left_at_start(cs: Seq<Seq<char>>)
    ensures
        word_left_pos(cs, 0) == 0,
{
}

/// Word-left makes strict progress from any cursor after the start, and
/// never undershoots 0.
pub proof fn lemma_word_left_progress(cs: Seq<Seq<char>>, cur: int)
    requires
        0 < cur <= cs.len(),
    ensures
        0 <= word_left_pos(cs, cur) < cur,
{
    let j0 = cur - 1;
    lemma_rskip_spaces_bounds(cs, j0);
    if cs[j0] == " "@ {
        lemma_rskip_spaces_bounds(cs, j0 - 1);
        lemma_rfind_space_bounds(cs, rskip_spaces(cs, j0 - 1));
    } else {
        lemma_rfind_space_bounds(cs, j0 - 1);
    }
}

/// The cursor after `k` word-right moves from `cur`.
pub open spec fn word_right_iterated(cs: Seq<Seq<char>>, cur: int, k: nat) -> int
    decreases k,
{
    if k == 0 {
        cur
    } else {
        word_right_iterated(cs, word_right_pos(cs, cur), (k - 1) as nat)
    }
}

/// The cursor after `k` word-left moves from `cur`.
pub open spec fn word_left_iterated(cs: Seq<Seq<char>>, cur: int, k: nat) -> int
    decreases k,
{
    if k == 0 {
        cur
    } else {
        word_left_iterated(cs, word_left_pos(cs, cur), (k - 1) as nat)
    }
}

/// Repeated word-right reaches the end of the line within one move per
/// cluster, and every further move is a no-op there.
pub proof fn lemma_word_right_reaches_end(cs: Seq<Seq<char>>, cur: int, k: nat)
    requires
        0 <= cur <= cs.len(),
        k >= cs.len() - cur,
    ensures
        word_right_iterated(cs, cur, k) == cs.len(),
    decreases k,
{
    if cur == cs.len() {
        if k > 0 {
            lemma_word_right_at_end(cs);
            lemma_word_right_reaches_end(cs, cs.len() as int, (k - 1) as nat);
        }
    } else {
        lemma_word_right_progress(cs, cur);
        lemma_word_right_reaches_end(cs, word_right_pos(cs, cur), (k - 1) as nat);
    }
}

/// Repeated word-left reaches the start of the line within one move per
/// cluster, and every further move is a no-op there.
pub proof fn lemma_word_left_reaches_start(cs: Seq<Seq<char>>, cur: int, k: nat)
    requires
        0 <= cur <= cs.len(),
        k >= cur,
    ensures
        word_left_iterated(cs, cur, k) == 0,
    decreases k,
{
    if cur == 0 {
        if k > 0 {
            lemma_word_left_at_start(cs);
            lemma_word_left_reaches_start(cs, 0, (k - 1) as nat);
        }
    } else {
        lemma_word_left_progress(cs, cur);
        lemma_word_left_reaches_start(cs, word_left_pos(cs, cur), (k - 1) as nat);
    }
}

/// The bytes of one background chunk as written in raw mode: every byte of
/// the chunk in order, with a move-to-column-0 directly after each newline,
/// since raw mode does not translate line feeds into carriage returns.
pub open spec fn raw_chunk_bytes(data: Seq<u8>) -> Seq<u8>
    decreases data.len(),
{
    if data.len() == 0 {
        Seq::empty()
    } else {
        raw_chunk_bytes(data.drop_last()) + seq![data.last()] + (if data.last() == 10u8 {
            ansi_move_to_column(0)
        } else {
            Seq::empty()
        })
    }
}

/// The UTF-8 bytes of a sequence of grapheme clusters, in order.
pub open spec fn clusters_bytes(cs: Seq<Seq<char>>) -> Seq<u8>
    decreases cs.len(),
{
    if cs.len() == 0 {
        Seq::empty()
    } else {
        clusters_bytes(cs.drop_last()) + encode_utf8(cs.last())
    }
}

/// Append one background chunk to `out` with every newline followed by a
/// move to column 0, and a final move to column 0 after an unterminated
/// tail.
fn write_raw_chunk(out: &mut Vec<u8>, data: &[u8])
    ensures
        final(out)@ == old(out)@ + raw_chunk_bytes(data@) + (if data@.len() > 0
            && data@.last() != 10u8 {
            ansi_move_to_column(0)
        } else {
            Seq::empty()
        }),
{
    let ghost start = out@;
    let mut i: usize = 0;
    assert(raw_chunk_bytes(data@.take(0)) =~= Seq::<u8>::empty());
    assert(out@ =~= start + raw_chunk_bytes(data@.take(0)));
    while i < data.len()
        invariant
            i <= data@.len(),
            out@ == start + raw_chunk_bytes(data@.take(i as int)),
        decreases data@.len() - i,
    {
        proof {
            assert(data@.take(i + 1).drop_last() =~= data@.take(i as int));
            assert(data@.take(i + 1).last() == data@[i as int]);
        }
        let b = data[i];
        out.push(b);
        if b == 10u8 {
            queue_move_to_column(out, 0);
        }
        proof {
            assert(out@ =~= start + raw_chunk_bytes(data@.take(i + 1)));
        }
        i = i + 1;
    }
    proof {
        assert(data@.take(data@.len() as int) =~= data@);
    }
    if data.len() > 0 && data[data.len() - 1] != 10u8 {
        queue_move_to_column(out, 0);
    }
}

/// Whether one grapheme cluster is the space character, the only word
/// boundary word navigation looks for.
fn is_space_cluster(s: &String) -> (r: bool)
    ensures
        r == (s@ == " "@),
{
    let space: String = " ".to_owned();
    *s == space
}

/// The concatenation of the cluster strings from index `start` on.
fn join_parts_from(parts: &Vec<String>, start: usize) -> (r: String)
    requires
        start <= parts@.len(),
    ensures
        r@ == joined(
            cluster_views(parts@).subrange(start as int, parts@.len() as int),
        ),
{
    let mut s = String::new();
    let mut i: usize = start;
    assert(cluster_views(parts@).subrange(start as int, start as int)
        =~= Seq::<Seq<char>>::empty());
    while i < parts.len()
        invariant
            start <= i <= parts@.len(),
            s@ == joined(cluster_views(parts@).subrange(start as int, i as int)),
        decreases parts@.len() - i,
    {
        proof {
            assert(cluster_views(parts@).subrange(start as int, i + 1).drop_last()
                =~= cluster_views(parts@).subrange(start as int, i as int));
            assert(cluster_views(parts@).subrange(start as int, i + 1).last()
                == cluster_views(parts@)[i as int]);
        }
        s.append(parts[i].as_str());
        i = i + 1;
    }
    s
}

/// Saturating addition on `usize`.
pub fn sat_add(a: usize, b: usize) -> (r: usize)
    ensures
        r as nat == sat_add_spec(a as nat, b as nat),
{
    if a > usize::MAX - b {
        usize::MAX
    } else {
        a + b
    }
}

/// Clamp into `u16`.
pub fn clamp_u16(a: usize) -> (r: u16)
    ensures
        r == clamp_u16_spec(a as nat),
{
    if a > u16::MAX as usize {
        u16::MAX
    } else {
        a as u16
    }
}

/// The line-editing state: edit buffer, cursor, prompt, terminal geometry,
/// and bookkeeping for a still-open background write.
pub struct LineState {
    /// The edit buffer, as its grapheme clusters in order.
    pub line: Vec<String>,
    /// The cursor, as an index into the grapheme clusters: 0 to line length.
    pub line_cursor_grapheme: usize,
    /// The display column of the cursor, counted from the start of the
    /// prompt; always recomputed from the cursor, never mutated on its own.
    pub current_column: usize,
    /// Buffer for the scalars of the grapheme cluster being typed, used to
    /// tell whether a new scalar combines with the previous one.
    pub cluster_buffer: String,
    /// The prompt text.
    pub prompt: String,
    /// The display width of the prompt.
    pub prompt_len: usize,
    /// Whether the submitted line stays on screen after Enter.
    pub should_print_line_on_enter: bool,
    /// Whether the cancelled line stays on screen after Ctrl-C.
    pub should_print_line_on_control_c: bool,
    /// Wrapped display width of the unterminated tail of the last background
    /// write, if it did not end in a newline.
    pub last_line_length: usize,
    /// Whether the last background write ended in a newline.
    pub last_line_completed: bool,
    /// The terminal geometry as (columns, rows); columns at least 1.
    pub term_size: (u16, u16),
    /// The navigable log of past submitted lines.
    pub history: History,
}

impl LineState {
    /// The grapheme clusters of the edit buffer.
    pub open spec fn clusters(self) -> Seq<Seq<char>> {
        cluster_views(self.line@)
    }

    /// The text of the edit buffer.
    pub open spec fn text(self) -> Seq<char> {
        joined(self.clusters())
    }

    /// The terminal width in columns.
    pub open spec fn width(self) -> nat {
        self.term_size.0 as nat
    }

    /// The structural invariant: the cursor stays within the buffer, the
    /// terminal is at least one column wide, and the history is well formed.
    pub open spec fn wf(self) -> bool {
        &&& self.line_cursor_grapheme <= self.line@.len()
        &&& self.term_size.0 >= 1
        &&& self.history.wf()
    }

    /// The display column the cursor belongs at when it sits at cluster
    /// index `idx`: the prompt's width plus the width of the clusters to the
    /// left (saturating).
    pub open spec fn column_at(self, idx: int) -> nat {
        sat_add_spec(
            self.prompt_len as nat,
            display_width(joined(self.clusters().take(idx))),
        )
    }

    /// The stored measurements agree with the stored text: the prompt width
    /// is the width of the prompt and the cursor column is recomputable from
    /// the cursor index. Established by the constructor and preserved by
    /// every event.
    pub open spec fn measurements_consistent(self) -> bool {
        &&& self.prompt_len as nat == display_width(self.prompt@)
        &&& self.current_column as nat == self.column_at(self.line_cursor_grapheme as int)
    }

    /// The number of extra terminal rows a column position wraps into.
    pub open spec fn line_height_of(self, pos: nat) -> nat {
        pos / self.width()
    }

    /// The bytes that move the cursor from column position `from` to the
    /// beginning of the wrapped line.
    pub open spec fn move_to_beginning_bytes(self, from: nat) -> Seq<u8> {
        let h = self.line_height_of(sub1(from));
        ansi_move_to_column(0) + if h != 0 {
            ansi_move_up(clamp_u16_spec(h))
        } else {
            Seq::empty()
        }
    }

    /// The bytes that move the cursor from the beginning of the wrapped line
    /// to column position `to`.
    pub open spec fn move_from_beginning_bytes(self, to: nat) -> Seq<u8> {
        let h = self.line_height_of(sub1(to));
        (if h != 0 {
            ansi_move_down(clamp_u16_spec(h))
        } else {
            Seq::empty()
        }) + ansi_move_right((to % self.width()) as u16)
    }

    /// The bytes that clear the rendered prompt and buffer: move to the
    /// beginning of the wrapped line, then erase to the end of the screen.
    pub open spec fn clear_bytes(self) -> Seq<u8> {
        self.move_to_beginning_bytes(self.current_column as nat) + ansi_clear(false)
    }

    /// The bytes that render the prompt and buffer and reposition the
    /// cursor: prompt, clusters, move to the beginning from the end of the
    /// content, move forward to the cursor column.
    pub open spec fn render_bytes(self) -> Seq<u8> {
        let full = sat_add_spec(self.prompt_len as nat, display_width(self.text()));
        encode_utf8(self.prompt@) + clusters_bytes(self.clusters())
            + self.move_to_beginning_bytes(full) + self.move_from_beginning_bytes(
            self.current_column as nat,
        )
    }

    /// The number of extra rows column position `pos` wraps into.
    fn line_height(&self, pos: usize) -> (r: usize)
        requires
            self.term_size.0 >= 1,
        ensures
            r as nat == self.line_height_of(pos as nat),
    {
        pos / (self.term_size.0 as usize)
    }

    /// Move from column position `from` to the start of the wrapped line.
    fn move_to_beginning(&self, out: &mut Vec<u8>, from: usize)
        requires
            self.term_size.0 >= 1,
        ensures
            final(out)@ == old(out)@ + self.move_to_beginning_bytes(from as nat),
    {
        let from1 = if from > 0 {
            from - 1
        } else {
            0
        };
        let move_up = self.line_height(from1);
        queue_move_to_column(out, 0);
        if move_up != 0 {
            queue_move_up(out, clamp_u16(move_up));
        }
    }

    /// Move from the start of the wrapped line to column position `to`.
    fn move_from_beginning(&self, out: &mut Vec<u8>, to: usize)
        requires
            self.term_size.0 >= 1,
        ensures
            final(out)@ == old(out)@ + self.move_from_beginning_bytes(to as nat),
    {
        let to1 = if to > 0 {
            to - 1
        } else {
            0
        };
        let line_height = self.line_height(to1);
        let line_remaining_len = to % (self.term_size.0 as usize);
        if line_height != 0 {
            queue_move_down(out, clamp_u16(line_height));
        }
        queue_move_right(out, line_remaining_len as u16);
    }

    /// Move from the current cursor column to the start of the wrapped line.
    fn reset_cursor(&self, out: &mut Vec<u8>)
        requires
            self.term_size.0 >= 1,
        ensures
            final(out)@ == old(out)@ + self.move_to_beginning_bytes(self.current_column as nat),
    {
        self.move_to_beginning(out, self.current_column)
    }

    /// Move from the start of the wrapped line to the current cursor column.
    fn set_cursor(&self, out: &mut Vec<u8>)
        requires
            self.term_size.0 >= 1,
        ensures
            final(out)@ == old(out)@ + self.move_from_beginning_bytes(
                self.current_column as nat,
            ),
    {
        self.move_from_beginning(out, self.current_column)
    }

    /// Clear the rendered prompt and buffer.
    pub fn clear(&self, out: &mut Vec<u8>)
        requires
            self.term_size.0 >= 1,
        ensures
            final(out)@ == old(out)@ + self.clear_bytes(),
    {
        self.move_to_beginning(out, self.current_column);
        queue_clear_down(out);
    }

    /// The concatenation of the first `n` clusters.
    fn join_prefix(&self, n: usize) -> (r: String)
        requires
            n <= self.line@.len(),
        ensures
            r@ == joined(self.clusters().take(n as int)),
    {
        let mut s = String::new();
        let mut i: usize = 0;
        assert(self.clusters().take(0) =~= Seq::<Seq<char>>::empty());
        while i < n
            invariant
                i <= n <= self.line@.len(),
                s@ == joined(self.clusters().take(i as int)),
            decreases n - i,
        {
            proof {
                assert(self.clusters().take(i + 1).drop_last() =~= self.clusters().take(
                    i as int,
                ));
                assert(self.clusters().take(i + 1).last() == self.clusters()[i as int]);
            }
            s.append(self.line[i].as_str());
            i = i + 1;
        }
        s
    }

    /// The whole edit buffer as one string.
    fn join_line(&self) -> (r: String)
        ensures
            r@ == self.text(),
    {
        let r = self.join_prefix(self.line.len());
        proof {
            assert(self.clusters().take(self.line@.len() as int) =~= self.clusters());
        }
        r
    }

    /// Recompute the cursor's display column from the cursor index, the
    /// prompt width and the buffer content.
    fn recompute_column(&mut self)
        requires
            old(self).line_cursor_grapheme <= old(self).line@.len(),
        ensures
            *final(self) == (LineState { current_column: final(self).current_column, ..*old(
                self,
            ) }),
            final(self).current_column as nat == old(self).column_at(
                old(self).line_cursor_grapheme as int,
            ),
            old(self).line_cursor_grapheme == 0 ==> final(self).current_column == old(
                self,
            ).prompt_len,
    {
        let prefix = self.join_prefix(self.line_cursor_grapheme);
        let w = measure_width(prefix.as_str());
        self.current_column = sat_add(self.prompt_len, w);
    }

    /// Append the bytes of the prompt followed by every cluster.
    fn write_text(&self, out: &mut Vec<u8>)
        ensures
            final(out)@ == old(out)@ + encode_utf8(self.prompt@) + clusters_bytes(
                self.clusters(),
            ),
    {
        out.extend_from_slice(self.prompt.as_str().as_bytes());
        let ghost base = out@;
        let mut i: usize = 0;
        assert(clusters_bytes(self.clusters().take(0)) =~= Seq::<u8>::empty());
        assert(out@ =~= base + clusters_bytes(self.clusters().take(0)));
        while i < self.line.len()
            invariant
                i <= self.line@.len(),
                base == old(out)@ + encode_utf8(self.prompt@),
                out@ == base + clusters_bytes(self.clusters().take(i as int)),
            decreases self.line@.len() - i,
        {
            proof {
                assert(self.clusters().take(i + 1).drop_last() =~= self.clusters().take(
                    i as int,
                ));
                assert(self.clusters().take(i + 1).last() == self.clusters()[i as int]);
            }
            out.extend_from_slice(self.line[i].as_str().as_bytes());
            i = i + 1;
        }
        proof {
            assert(self.clusters().take(self.line@.len() as int) =~= self.clusters());
        }
    }

    /// Render the prompt and buffer and reposition the cursor.
    pub fn render(&self, out: &mut Vec<u8>)
        requires
            self.term_size.0 >= 1,
        ensures
            final(out)@ == old(out)@ + self.render_bytes(),
    {
        self.write_text(out);
        let text = self.join_line();
        let text_width = measure_width(text.as_str());
        let line_len = sat_add(self.prompt_len, text_width);
        self.move_to_beginning(out, line_len);
        self.move_from_beginning(out, self.current_column);
    }

    /// Clear, then render.
    pub fn clear_and_render(&self, out: &mut Vec<u8>)
        requires
            self.term_size.0 >= 1,
        ensures
            final(out)@ == old(out)@ + self.clear_bytes() + self.render_bytes(),
    {
        self.clear(out);
        self.render(out);
    }

    /// A fresh editor with the given prompt and terminal size; a reported
    /// width of zero columns is taken as one.
    pub fn new(prompt: String, term_size: (u16, u16)) -> (result: LineState)
        ensures
            result.wf(),
            result.measurements_consistent(),
            result.line@.len() == 0,
            result.line_cursor_grapheme == 0,
            result.cluster_buffer@ == Seq::<char>::empty(),
            result.prompt@ == prompt@,
            result.prompt_len as nat == display_width(prompt@),
            result.should_print_line_on_enter,
            result.should_print_line_on_control_c,
            result.last_line_length == 0,
            result.last_line_completed,
            result.term_size.0 == if term_size.0 >= 1 {
                term_size.0
            } else {
                1u16
            },
            result.term_size.1 == term_size.1,
            result.current_column == result.prompt_len,
            result.history.wf(),
            result.history.entries_view() == Seq::<Seq<char>>::empty(),
            result.history.max_size_view() == 1000,
            result.history.position_view() is None,
    {
        let prompt_len = measure_width(prompt.as_str());
        let mut state = LineState {
            line: Vec::new(),
            line_cursor_grapheme: 0,
            current_column: 0,
            cluster_buffer: String::new(),
            prompt,
            prompt_len,
            should_print_line_on_enter: true,
            should_print_line_on_control_c: true,
            last_line_length: 0,
            last_line_completed: true,
            term_size: (
                if term_size.0 >= 1 {
                    term_size.0
                } else {
                    1
                },
                term_size.1,
            ),
            history: History::default(),
        };
        state.recompute_column();
        proof {
            assert(state.clusters().take(0) =~= Seq::<Seq<char>>::empty());
        }
        state
    }

    /// The state after printing one background chunk: the completion flag
    /// records whether the chunk ended in a newline, and the width of an
    /// unterminated tail is carried (wrapped modulo the terminal width) so a
    /// later partial chunk resumes at the right column.
    pub open spec fn print_data_post(self, data: Seq<u8>) -> LineState {
        let completed = data.len() > 0 && data.last() == 10u8;
        if completed {
            LineState { last_line_completed: true, last_line_length: 0, ..self }
        } else {
            let t = sat_add_spec(
                self.last_line_length as nat,
                display_width(lossy_decode(data)),
            );
            let lll = if t >= self.width() {
                t % self.width()
            } else {
                t
            };
            LineState { last_line_completed: false, last_line_length: lll as usize, ..self }
        }
    }

    /// Everything printing one background chunk writes: clear the prompt;
    /// if the previous chunk was left unterminated, move back onto its line;
    /// the chunk itself with every newline forced to column 0; a newline
    /// (two, if the unterminated tail wrapped) to open a row for the prompt
    /// unless the chunk ended in a newline; and the prompt rendered anew.
    pub open spec fn print_data_bytes(self, data: Seq<u8>) -> Seq<u8> {
        let completed = data.len() > 0 && data.last() == 10u8;
        let t = sat_add_spec(self.last_line_length as nat, display_width(lossy_decode(data)));
        self.clear_bytes() + (if !self.last_line_completed {
            ansi_move_up(1) + ansi_move_to_column(0) + ansi_move_right(
                clamp_u16_spec(self.last_line_length as nat),
            )
        } else {
            Seq::empty()
        }) + raw_chunk_bytes(data) + (if data.len() > 0 && data.last() != 10u8 {
            ansi_move_to_column(0)
        } else {
            Seq::empty()
        }) + (if !completed {
            (if t >= self.width() {
                seq![10u8]
            } else {
                Seq::empty()
            }) + seq![10u8]
        } else {
            Seq::empty()
        }) + ansi_move_to_column(0) + self.print_data_post(data).render_bytes()
    }

    /// Print one chunk of background output above the prompt: clear the
    /// prompt render, write the chunk with newlines forced to column 0,
    /// remember whether it left a line unterminated, and redraw the prompt
    /// beneath it.
    #[verifier::rlimit(80)]
    #[verifier::spinoff_prover]
    pub fn print_data(&mut self, data: &[u8], out: &mut Vec<u8>)
        requires
            old(self).wf(),
        ensures
            final(self).wf(),
            *final(self) == old(self).print_data_post(data@),
            final(out)@ == old(out)@ + old(self).print_data_bytes(data@),
            old(self).measurements_consistent() ==> final(self).measurements_consistent(),
    {
        let ghost pre = *self;
        let ghost d1 = pre.clear_bytes();
        let ghost d2: Seq<u8> = if !pre.last_line_completed {
            ansi_move_up(1) + ansi_move_to_column(0) + ansi_move_right(
                clamp_u16_spec(pre.last_line_length as nat),
            )
        } else {
            Seq::empty()
        };
        let ghost d3 = raw_chunk_bytes(data@);
        let ghost d4: Seq<u8> = if data@.len() > 0 && data@.last() != 10u8 {
            ansi_move_to_column(0)
        } else {
            Seq::empty()
        };
        let ghost tw = sat_add_spec(
            pre.last_line_length as nat,
            display_width(lossy_decode(data@)),
        );
        let ghost dcompleted = data@.len() > 0 && data@.last() == 10u8;
        let ghost d5: Seq<u8> = if !dcompleted {
            (if tw >= pre.width() {
                seq![10u8]
            } else {
                Seq::empty()
            }) + seq![10u8]
        } else {
            Seq::empty()
        };
        let ghost o0 = old(out)@;
        self.clear(out);
        if !self.last_line_completed {
            queue_move_up(out, 1);
            queue_move_to_column(out, 0);
            queue_move_right(out, clamp_u16(self.last_line_length));
            proof {
                lemma_concat_associative(o0 + d1, ansi_move_up(1), ansi_move_to_column(0));
                lemma_concat_associative(
                    o0 + d1,
                    ansi_move_up(1) + ansi_move_to_column(0),
                    ansi_move_right(clamp_u16_spec(pre.last_line_length as nat)),
                );
            }
        } else {
            proof {
                assert((o0 + d1) + d2 =~= o0 + d1);
            }
        }
        assert(out@ == o0 + d1 + d2);
        write_raw_chunk(out, data);
        let completed = data.len() > 0 && data[data.len() - 1] == 10u8;
        assert(out@ == o0 + d1 + d2 + d3 + d4);
        let ghost p4 = o0 + d1 + d2 + d3 + d4;
        self.last_line_completed = completed;
        if !completed {
            let decoded = lossy_utf8(data);
            let chunk_width = measure_width(decoded.as_str());
            let t = sat_add(self.last_line_length, chunk_width);
            let w = self.term_size.0 as usize;
            if t >= w {
                self.last_line_length = t % w;
                out.push(10u8);
                proof {
                    assert(p4.push(10u8) =~= p4 + seq![10u8]);
                }
            } else {
                self.last_line_length = t;
                proof {
                    assert(Seq::<u8>::empty() + seq![10u8] =~= seq![10u8]);
                }
            }
            out.push(10u8);
            proof {
                if tw >= pre.width() {
                    assert((p4 + seq![10u8]).push(10u8) =~= (p4 + seq![10u8]) + seq![10u8]);
                    lemma_concat_associative(p4, seq![10u8], seq![10u8]);
                    assert(d5 == seq![10u8] + seq![10u8]);
                } else {
                    assert(p4.push(10u8) =~= p4 + seq![10u8]);
                    assert(d5 == Seq::<u8>::empty() + seq![10u8]);
                }
            }
        } else {
            self.last_line_length = 0;
            proof {
                assert(p4 + d5 =~= p4);
            }
        }
        assert(out@ == p4 + d5);
        queue_move_to_column(out, 0);
        self.render(out);
        proof {
            assert(*self == pre.print_data_post(data@));
            let d6 = ansi_move_to_column(0);
            let d7 = pre.print_data_post(data@).render_bytes();
            assert(out@ == p4 + d5 + d6 + d7);
            let s2 = d1 + d2;
            let s3 = s2 + d3;
            let s4 = s3 + d4;
            let s5 = s4 + d5;
            let s6 = s5 + d6;
            let s7 = s6 + d7;
            lemma_concat_associative(o0, d1, d2);
            lemma_concat_associative(o0, s2, d3);
            lemma_concat_associative(o0, s3, d4);
            lemma_concat_associative(o0, s4, d5);
            lemma_concat_associative(o0, s5, d6);
            lemma_concat_associative(o0, s6, d7);
            assert(pre.print_data_bytes(data@) == s7);
            assert(out@ == o0 + pre.print_data_bytes(data@));
        }
    }

    /// Print a string of background output above the prompt.
    pub fn print(&mut self, string: &str, out: &mut Vec<u8>)
        requires
            old(self).wf(),
        ensures
            final(self).wf(),
            *final(self) == old(self).print_data_post(encode_utf8(string@)),
            final(out)@ == old(out)@ + old(self).print_data_bytes(encode_utf8(string@)),
            old(self).measurements_consistent() ==> final(self).measurements_consistent(),
    {
        let data: &[u8] = string.as_bytes();
        self.print_data(data, out);
    }

    /// Replace the prompt, recompute its width and the cursor column, and
    /// redraw.
    pub fn update_prompt(&mut self, prompt: &str, out: &mut Vec<u8>)
        requires
            old(self).wf(),
        ensures
            final(self).wf(),
            *final(self) == (LineState {
                prompt: final(self).prompt,
                prompt_len: final(self).prompt_len,
                current_column: final(self).current_column,
                ..*old(self)
            }),
            final(self).prompt@ == prompt@,
            final(self).prompt_len as nat == display_width(prompt@),
            final(self).measurements_consistent(),
            final(out)@ == old(out)@ + old(self).clear_bytes() + final(self).render_bytes(),
    {
        self.clear(out);
        self.prompt = prompt.to_owned();
        self.prompt_len = measure_width(prompt);
        self.recompute_column();
        self.render(out);
    }

    /// Put the cursor at cluster index `idx` and recompute its column.
    fn set_cursor_index(&mut self, idx: usize)
        requires
            idx <= old(self).line@.len(),
        ensures
            *final(self) == (LineState {
                line_cursor_grapheme: idx,
                current_column: final(self).current_column,
                ..*old(self)
            }),
            final(self).current_column as nat == final(self).column_at(idx as int),
    {
        self.line_cursor_grapheme = idx;
        self.recompute_column();
    }

    /// Remove the clusters in `[start, end)` from the edit buffer.
    fn remove_clusters(&mut self, start: usize, end: usize)
        requires
            start <= end <= old(self).line@.len(),
        ensures
            *final(self) == (LineState { line: final(self).line, ..*old(self) }),
            final(self).line@ == old(self).line@.subrange(0, start as int) + old(
                self,
            ).line@.subrange(end as int, old(self).line@.len() as int),
    {
        let ghost orig = self.line@;
        let mut k: usize = end - start;
        proof {
            assert(self.line@ =~= orig.subrange(0, start as int) + orig.subrange(
                (end - k) as int,
                orig.len() as int,
            ));
        }
        while k > 0
            invariant
                k <= end - start,
                start <= end <= orig.len(),
                self.line@ =~= orig.subrange(0, start as int) + orig.subrange(
                    (end - k) as int,
                    orig.len() as int,
                ),
                *self == (LineState { line: self.line, ..*old(self) }),
            decreases k,
        {
            self.line.remove(start);
            k = k - 1;
            proof {
                assert(self.line@ =~= orig.subrange(0, start as int) + orig.subrange(
                    (end - k) as int,
                    orig.len() as int,
                ));
            }
        }
    }

    /// Where word-left stops from the current cursor.
    fn word_left_index(&self) -> (r: usize)
        requires
            self.line_cursor_grapheme <= self.line@.len(),
        ensures
            r as int == word_left_pos(self.clusters(), self.line_cursor_grapheme as int),
            r <= self.line_cursor_grapheme,
    {
        let ghost cs = self.clusters();
        let ghost cur = self.line_cursor_grapheme as int;
        let mut j: usize = self.line_cursor_grapheme;
        while j > 0 && is_space_cluster(&self.line[j - 1])
            invariant
                j <= self.line_cursor_grapheme <= self.line@.len(),
                cs == self.clusters(),
                rskip_spaces(cs, cur - 1) == rskip_spaces(cs, j as int - 1),
            decreases j,
        {
            j = j - 1;
        }
        proof {
            lemma_rskip_spaces_bounds(cs, cur - 1);
            assert(rskip_spaces(cs, cur - 1) == j as int - 1);
        }
        while j > 0 && !is_space_cluster(&self.line[j - 1])
            invariant
                j <= self.line_cursor_grapheme <= self.line@.len(),
                cs == self.clusters(),
                rfind_space(cs, rskip_spaces(cs, cur - 1)) == rfind_space(cs, j as int - 1),
            decreases j,
        {
            j = j - 1;
        }
        proof {
            assert(rfind_space(cs, rskip_spaces(cs, cur - 1)) == if j > 0 {
                j as int - 1
            } else {
                -1int
            });
        }
        j
    }

    /// Where word-right stops from the current cursor.
    fn word_right_index(&self) -> (r: usize)
        requires
            self.line_cursor_grapheme <= self.line@.len(),
        ensures
            r as int == word_right_pos(self.clusters(), self.line_cursor_grapheme as int),
            self.line_cursor_grapheme <= r <= self.line@.len(),
    {
        let ghost cs = self.clusters();
        let ghost cur = self.line_cursor_grapheme as int;
        let mut j: usize = self.line_cursor_grapheme;
        while j < self.line.len() && is_space_cluster(&self.line[j])
            invariant
                self.line_cursor_grapheme <= j <= self.line@.len(),
                cs == self.clusters(),
                skip_spaces(cs, cur) == skip_spaces(cs, j as int),
            decreases self.line@.len() - j,
        {
            j = j + 1;
        }
        proof {
            assert(skip_spaces(cs, cur) == j as int);
        }
        while j < self.line.len() && !is_space_cluster(&self.line[j])
            invariant
                self.line_cursor_grapheme <= j <= self.line@.len(),
                cs == self.clusters(),
                find_space(cs, skip_spaces(cs, cur)) == find_space(cs, j as int),
            decreases self.line@.len() - j,
        {
            j = j + 1;
        }
        proof {
            assert(find_space(cs, skip_spaces(cs, cur)) == j as int);
        }
        j
    }

    /// Choose whether the line stays on screen after Enter and after Ctrl-C.
    pub fn should_print_line_on(&mut self, enter: bool, control_c: bool)
        ensures
            *final(self) == (LineState {
                should_print_line_on_enter: enter,
                should_print_line_on_control_c: control_c,
                ..*old(self)
            }),
    {
        self.should_print_line_on_enter = enter;
        self.should_print_line_on_control_c = control_c;
    }

    /// Ctrl-D: newline, clear, report end of input.
    fn key_eof(&mut self, out: &mut Vec<u8>) -> (r: Option<ReadlineEvent>)
        requires
            old(self).wf(),
        ensures
            final(self).wf(),
            old(self).measurements_consistent() ==> final(self).measurements_consistent(),
            eof_rel(*old(self), *final(self), old(out)@, final(out)@, r),
    {
        out.push(10u8);
        proof {
            assert(out@ =~= old(out)@ + seq![10u8]);
        }
        self.clear(out);
        Some(ReadlineEvent::Eof)
    }

    /// Ctrl-C: optionally echo, empty the buffer, redraw, report interrupt.
    fn key_interrupt(&mut self, out: &mut Vec<u8>) -> (r: Option<ReadlineEvent>)
        requires
            old(self).wf(),
        ensures
            final(self).wf(),
            old(self).measurements_consistent() ==> final(self).measurements_consistent(),
            interrupt_rel(*old(self), *final(self), old(out)@, final(out)@, r),
    {
        let ghost pre = *self;
        if self.should_print_line_on_control_c {
            let mut data: Vec<u8> = Vec::new();
            self.write_text(&mut data);
            proof {
                assert(data@ =~= echo_bytes(pre));
            }
            self.print_data(data.as_slice(), out);
        } else {
            proof {
                assert(old(out)@ + Seq::<u8>::empty() =~= old(out)@);
            }
        }
        self.line = Vec::new();
        self.set_cursor_index(0);
        self.clear_and_render(out);
        Some(ReadlineEvent::Interrupted)
    }

    /// Enter: optionally echo, take the buffer, redraw, reset history
    /// navigation, and return the submitted line.
    fn key_enter(&mut self, out: &mut Vec<u8>) -> (r: Option<ReadlineEvent>)
        requires
            old(self).wf(),
        ensures
            final(self).wf(),
            old(self).measurements_consistent() ==> final(self).measurements_consistent(),
            enter_rel(*old(self), *final(self), old(out)@, final(out)@, r),
    {
        let ghost pre = *self;
        if self.should_print_line_on_enter {
            let mut data: Vec<u8> = Vec::new();
            self.write_text(&mut data);
            data.push(10u8);
            proof {
                assert(data@ =~= echo_bytes(pre) + seq![10u8]);
            }
            self.print_data(data.as_slice(), out);
        } else {
            proof {
                assert(old(out)@ + Seq::<u8>::empty() =~= old(out)@);
            }
        }
        let line_text = self.join_line();
        self.line = Vec::new();
        self.set_cursor_index(0);
        self.clear_and_render(out);
        self.history.reset_position();
        Some(ReadlineEvent::Line(line_text))
    }

    /// Ctrl-L: erase the screen and redraw from the top.
    fn key_ctrl_l(&mut self, out: &mut Vec<u8>) -> (r: Option<ReadlineEvent>)
        requires
            old(self).wf(),
        ensures
            final(self).wf(),
            old(self).measurements_consistent() ==> final(self).measurements_consistent(),
            ctrl_l_rel(*old(self), *final(self), old(out)@, final(out)@, r),
    {
        queue_clear_all(out);
        queue_move_to(out, 0, 0);
        self.clear_and_render(out);
        None
    }

    /// Ctrl-U: delete from the start of the buffer through the cursor.
    fn key_ctrl_u(&mut self, out: &mut Vec<u8>) -> (r: Option<ReadlineEvent>)
        requires
            old(self).wf(),
        ensures
            final(self).wf(),
            old(self).measurements_consistent() ==> final(self).measurements_consistent(),
            ctrl_u_rel(*old(self), *final(self), old(out)@, final(out)@, r),
    {
        let ghost pre = *self;
        if self.line_cursor_grapheme > 0 {
            let cur = self.line_cursor_grapheme;
            self.remove_clusters(0, cur);
            proof {
                assert(self.line@ =~= pre.line@.subrange(
                    cur as int,
                    pre.line@.len() as int,
                ));
            }
            self.set_cursor_index(0);
            self.clear_and_render(out);
        }
        None
    }

    /// Ctrl-W: delete the word before the cursor.
    fn key_ctrl_w(&mut self, out: &mut Vec<u8>) -> (r: Option<ReadlineEvent>)
        requires
            old(self).wf(),
        ensures
            final(self).wf(),
            old(self).measurements_consistent() ==> final(self).measurements_consistent(),
            ctrl_w_rel(*old(self), *final(self), old(out)@, final(out)@, r),
    {
        let cur = self.line_cursor_grapheme;
        let start = self.word_left_index();
        self.remove_clusters(start, cur);
        self.set_cursor_index(start);
        self.clear_and_render(out);
        None
    }

    /// A pure cursor move to cluster index `target`.
    fn key_cursor_move(&mut self, out: &mut Vec<u8>, target: usize) -> (r: Option<
        ReadlineEvent,
    >)
        requires
            old(self).wf(),
            target <= old(self).line@.len(),
        ensures
            final(self).wf(),
            old(self).measurements_consistent() ==> final(self).measurements_consistent(),
            cursor_move_rel(*old(self), *final(self), old(out)@, final(out)@, r, target as int),
    {
        self.reset_cursor(out);
        self.set_cursor_index(target);
        self.set_cursor(out);
        None
    }

    /// Up or Down: one history navigation step; on a hit, replace the buffer
    /// with the retrieved text and put the cursor at its end.
    fn key_history(&mut self, out: &mut Vec<u8>, next: bool) -> (r: Option<ReadlineEvent>)
        requires
            old(self).wf(),
        ensures
            final(self).wf(),
            old(self).measurements_consistent() ==> final(self).measurements_consistent(),
            history_step_rel(*old(self), *final(self), old(out)@, final(out)@, r, next),
    {
        let ghost pre = *self;
        let cur_text = self.join_line();
        let res = if next {
            self.history.search_next(cur_text.as_str())
        } else {
            self.history.search_previous(cur_text.as_str())
        };
        match res {
            Some(entry) => {
                self.line = split_graphemes(entry.as_str());
                self.clear(out);
                let n = self.line.len();
                self.set_cursor_index(n);
                self.render(out);
            },
            None => {},
        }
        None
    }

    /// A printable character: merge it into the in-progress cluster or start
    /// a new one at the cursor.
    fn key_char(&mut self, out: &mut Vec<u8>, c: char) -> (r: Option<ReadlineEvent>)
        requires
            old(self).wf(),
        ensures
            final(self).wf(),
            old(self).measurements_consistent() ==> final(self).measurements_consistent(),
            char_rel(*old(self), *final(self), old(out)@, final(out)@, r, c),
    {
        let ghost pre = *self;
        self.clear(out);
        let prev = count_graphemes(self.cluster_buffer.as_str());
        push_char(&mut self.cluster_buffer, c);
        let newn = count_graphemes(self.cluster_buffer.as_str());
        if newn != prev {
            let mut cl = String::new();
            push_char(&mut cl, c);
            proof {
                assert(cl@ =~= seq![c]);
            }
            let idx = self.line_cursor_grapheme;
            self.line.insert(idx, cl);
            proof {
                assert(cluster_views(self.line@) =~= cluster_views(pre.line@).insert(
                    idx as int,
                    seq![c],
                ));
            }
            let n = self.line.len();
            assert(idx < n);
            self.line_cursor_grapheme = idx + 1;
            if prev > 0 {
                let parts = split_graphemes(self.cluster_buffer.as_str());
                proof {
                    assert(cluster_views(parts@).subrange(1, parts@.len() as int)
                        =~= grapheme_clusters(self.cluster_buffer@).subrange(
                        1,
                        grapheme_clusters(self.cluster_buffer@).len() as int,
                    ));
                }
                self.cluster_buffer = join_parts_from(&parts, 1);
            }
        } else {
            if self.line_cursor_grapheme > 0 {
                let idx = self.line_cursor_grapheme - 1;
                let mut clu = self.line.remove(idx);
                push_char(&mut clu, c);
                self.line.insert(idx, clu);
                proof {
                    assert(cluster_views(self.line@) =~= cluster_views(pre.line@).update(
                        idx as int,
                        cluster_views(pre.line@)[idx as int].push(c),
                    ));
                }
            } else {
                let mut cl = String::new();
                push_char(&mut cl, c);
                proof {
                    assert(cl@ =~= seq![c]);
                }
                self.line.insert(0, cl);
                proof {
                    assert(cluster_views(self.line@) =~= cluster_views(pre.line@).insert(
                        0,
                        seq![c],
                    ));
                }
            }
        }
        self.recompute_column();
        self.render(out);
        None
    }

    /// A terminal resize: record the new geometry and redraw.
    fn key_resize(&mut self, out: &mut Vec<u8>, cols: u16, rows: u16) -> (r: Option<
        ReadlineEvent,
    >)
        requires
            old(self).wf(),
        ensures
            final(self).wf(),
            old(self).measurements_consistent() ==> final(self).measurements_consistent(),
            resize_rel(*old(self), *final(self), old(out)@, final(out)@, r, cols, rows),
    {
        self.term_size = (
            if cols >= 1 {
                cols
            } else {
                1
            },
            rows,
        );
        self.clear_and_render(out);
        None
    }

    /// Apply one decoded event: a visual-only update appends bytes for the
    /// terminal and returns nothing; Enter, Ctrl-D and Ctrl-C return the
    /// line, end-of-input, or an interrupt for the caller.
    pub fn handle_event(&mut self, event: Event, out: &mut Vec<u8>) -> (result: Option<
        ReadlineEvent,
    >)
        requires
            old(self).wf(),
        ensures
            final(self).wf(),
            old(self).measurements_consistent() ==> final(self).measurements_consistent(),
            event_rel(*old(self), event, *final(self), old(out)@, final(out)@, result),
    {
        match event {
            Event::Key { code, control, press } => {
                if !press {
                    return None;
                }
                if control {
                    match code {
                        KeyCode::Char(c) => {
                            if c == 'd' {
                                self.key_eof(out)
                            } else if c == 'c' {
                                self.key_interrupt(out)
                            } else if c == 'l' {
                                self.key_ctrl_l(out)
                            } else if c == 'u' {
                                self.key_ctrl_u(out)
                            } else if c == 'w' {
                                self.key_ctrl_w(out)
                            } else if c == 'a' {
                                self.key_cursor_move(out, 0)
                            } else if c == 'e' {
                                let n = self.line.len();
                                self.key_cursor_move(out, n)
                            } else {
                                None
                            }
                        },
                        KeyCode::Left => {
                            let t = self.word_left_index();
                            self.key_cursor_move(out, t)
                        },
                        KeyCode::Right => {
                            let t = self.word_right_index();
                            self.key_cursor_move(out, t)
                        },
                        _ => None,
                    }
                } else {
                    match code {
                        KeyCode::Enter => self.key_enter(out),
                        KeyCode::Backspace => self.key_backspace(out),
                        KeyCode::Delete => self.key_delete(out),
                        KeyCode::Left => {
                            let t = if self.line_cursor_grapheme > 0 {
                                self.line_cursor_grapheme - 1
                            } else {
                                0
                            };
                            self.key_cursor_move(out, t)
                        },
                        KeyCode::Right => {
                            let t = if self.line_cursor_grapheme < self.line.len() {
                                self.line_cursor_grapheme + 1
                            } else {
                                self.line.len()
                            };
                            self.key_cursor_move(out, t)
                        },
                        KeyCode::Home => self.key_cursor_move(out, 0),
                        KeyCode::End => {
                            let n = self.line.len();
                            self.key_cursor_move(out, n)
                        },
                        KeyCode::Up => self.key_history(out, true),
                        KeyCode::Down => self.key_history(out, false),
                        KeyCode::Char(c) => self.key_char(out, c),
                    }
                }
            },
            Event::Resize(x, y) => self.key_resize(out, x, y),
        }
    }

    /// Backspace: remove the cluster before the cursor, if any.
    fn key_backspace(&mut self, out: &mut Vec<u8>) -> (r: Option<ReadlineEvent>)
        requires
            old(self).wf(),
        ensures
            final(self).wf(),
            old(self).measurements_consistent() ==> final(self).measurements_consistent(),
            backspace_rel(*old(self), *final(self), old(out)@, final(out)@, r),
    {
        if self.line_cursor_grapheme > 0 {
            self.clear(out);
            let idx = self.line_cursor_grapheme - 1;
            self.line.remove(idx);
            self.set_cursor_index(idx);
            self.render(out);
        }
        None
    }

    /// Delete: remove the cluster at the cursor, if any; the cursor stays.
    fn key_delete(&mut self, out: &mut Vec<u8>) -> (r: Option<ReadlineEvent>)
        requires
            old(self).wf(),
        ensures
            final(self).wf(),
            old(self).measurements_consistent() ==> final(self).measurements_consistent(),
            delete_rel(*old(self), *final(self), old(out)@, final(out)@, r),
    {
        let ghost pre = *self;
        if self.line_cursor_grapheme < self.line.len() {
            self.clear(out);
            self.line.remove(self.line_cursor_grapheme);
            self.render(out);
            proof {
                if pre.measurements_consistent() {
                    assert(cluster_views(self.line@).take(pre.line_cursor_grapheme as int)
                        =~= cluster_views(pre.line@).take(pre.line_cursor_grapheme as int));
                }
            }
        }
        None
    }
}

/// No state change, no output, no result.
pub open spec fn noop_rel(
    pre: LineState,
    post: LineState,
    out0: Seq<u8>,
    out1: Seq<u8>,
    r: Option<ReadlineEvent>,
) -> bool {
    &&& post == pre
    &&& out1 == out0
    &&& r is None
}

/// The bytes that echo the prompt followed by the current buffer.
pub open spec fn echo_bytes(pre: LineState) -> Seq<u8> {
    encode_utf8(pre.prompt@) + clusters_bytes(pre.clusters())
}

/// Ctrl-D: write a newline, clear the prompt render, and report end of
/// input; the buffer is kept.
pub open spec fn eof_rel(
    pre: LineState,
    post: LineState,
    out0: Seq<u8>,
    out1: Seq<u8>,
    r: Option<ReadlineEvent>,
) -> bool {
    &&& post == pre
    &&& out1 == out0 + seq![10u8] + pre.clear_bytes()
    &&& r == Some(ReadlineEvent::Eof)
}

/// Ctrl-C: optionally echo the cancelled line, empty the buffer, put the
/// cursor at 0, redraw, and report an interrupt.
pub open spec fn interrupt_rel(
    pre: LineState,
    post: LineState,
    out0: Seq<u8>,
    out1: Seq<u8>,
    r: Option<ReadlineEvent>,
) -> bool {
    let echoed = pre.should_print_line_on_control_c;
    let s1 = if echoed {
        pre.print_data_post(echo_bytes(pre))
    } else {
        pre
    };
    let d1: Seq<u8> = if echoed {
        pre.print_data_bytes(echo_bytes(pre))
    } else {
        Seq::empty()
    };
    &&& post == (LineState {
        line: post.line,
        line_cursor_grapheme: 0,
        current_column: post.current_column,
        ..s1
    })
    &&& post.line@.len() == 0
    &&& post.current_column as nat == post.column_at(0)
    &&& out1 == out0 + d1 + post.clear_bytes() + post.render_bytes()
    &&& r == Some(ReadlineEvent::Interrupted)
}

/// Enter: optionally echo the submitted line with a newline, empty the
/// buffer, put the cursor at 0, redraw, return the history to the fresh
/// line, and hand the submitted text to the caller.
pub open spec fn enter_rel(
    pre: LineState,
    post: LineState,
    out0: Seq<u8>,
    out1: Seq<u8>,
    r: Option<ReadlineEvent>,
) -> bool {
    let echoed = pre.should_print_line_on_enter;
    let pdata = echo_bytes(pre) + seq![10u8];
    let s1 = if echoed {
        pre.print_data_post(pdata)
    } else {
        pre
    };
    let d1: Seq<u8> = if echoed {
        pre.print_data_bytes(pdata)
    } else {
        Seq::empty()
    };
    &&& post == (LineState {
        line: post.line,
        line_cursor_grapheme: 0,
        current_column: post.current_column,
        history: post.history,
        ..s1
    })
    &&& post.line@.len() == 0
    &&& post.current_column as nat == post.column_at(0)
    &&& post.history.entries_view() == pre.history.entries_view()
    &&& post.history.max_size_view() == pre.history.max_size_view()
    &&& post.history.position_view() is None
    &&& out1 == out0 + d1 + post.clear_bytes() + post.render_bytes()
    &&& (r matches Some(ReadlineEvent::Line(s)) && s@ == pre.text())
}

/// Backspace: remove the cluster before the cursor, if any, and move the
/// cursor one cluster left.
pub open spec fn backspace_rel(
    pre: LineState,
    post: LineState,
    out0: Seq<u8>,
    out1: Seq<u8>,
    r: Option<ReadlineEvent>,
) -> bool {
    let cur = pre.line_cursor_grapheme as int;
    if cur > 0 {
        &&& post == (LineState {
            line: post.line,
            line_cursor_grapheme: (cur - 1) as usize,
            current_column: post.current_column,
            ..pre
        })
        &&& post.line@ == pre.line@.remove(cur - 1)
        &&& post.current_column as nat == post.column_at(cur - 1)
        &&& out1 == out0 + pre.clear_bytes() + post.render_bytes()
        &&& r is None
    } else {
        noop_rel(pre, post, out0, out1, r)
    }
}

/// Delete: remove the cluster at the cursor, if any; the cursor stays.
pub open spec fn delete_rel(
    pre: LineState,
    post: LineState,
    out0: Seq<u8>,
    out1: Seq<u8>,
    r: Option<ReadlineEvent>,
) -> bool {
    let cur = pre.line_cursor_grapheme as int;
    if cur < pre.line@.len() {
        &&& post == (LineState { line: post.line, ..pre })
        &&& post.line@ == pre.line@.remove(cur)
        &&& out1 == out0 + pre.clear_bytes() + post.render_bytes()
        &&& r is None
    } else {
        noop_rel(pre, post, out0, out1, r)
    }
}

/// A pure cursor move to cluster index `target`: reposition on screen, no
/// buffer change.
pub open spec fn cursor_move_rel(
    pre: LineState,
    post: LineState,
    out0: Seq<u8>,
    out1: Seq<u8>,
    r: Option<ReadlineEvent>,
    target: int,
) -> bool {
    &&& post == (LineState {
        line_cursor_grapheme: post.line_cursor_grapheme,
        current_column: post.current_column,
        ..pre
    })
    &&& post.line_cursor_grapheme as int == target
    &&& post.current_column as nat == post.column_at(target)
    &&& out1 == out0 + pre.move_to_beginning_bytes(pre.current_column as nat)
        + post.move_from_beginning_bytes(post.current_column as nat)
    &&& r is None
}

/// Ctrl-U: delete from the start of the buffer through the cursor.
pub open spec fn ctrl_u_rel(
    pre: LineState,
    post: LineState,
    out0: Seq<u8>,
    out1: Seq<u8>,
    r: Option<ReadlineEvent>,
) -> bool {
    let cur = pre.line_cursor_grapheme as int;
    if cur > 0 {
        &&& post == (LineState {
            line: post.line,
            line_cursor_grapheme: 0,
            current_column: post.current_column,
            ..pre
        })
        &&& post.line@ == pre.line@.subrange(cur, pre.line@.len() as int)
        &&& post.current_column as nat == post.column_at(0)
        &&& out1 == out0 + post.clear_bytes() + post.render_bytes()
        &&& r is None
    } else {
        noop_rel(pre, post, out0, out1, r)
    }
}

/// Ctrl-W: delete the word before the cursor, using the word-left boundary.
pub open spec fn ctrl_w_rel(
    pre: LineState,
    post: LineState,
    out0: Seq<u8>,
    out1: Seq<u8>,
    r: Option<ReadlineEvent>,
) -> bool {
    let cur = pre.line_cursor_grapheme as int;
    let start = word_left_pos(pre.clusters(), cur);
    &&& post == (LineState {
        line: post.line,
        line_cursor_grapheme: post.line_cursor_grapheme,
        current_column: post.current_column,
        ..pre
    })
    &&& post.line_cursor_grapheme as int == start
    &&& post.line@ == pre.line@.subrange(0, start) + pre.line@.subrange(
        cur,
        pre.line@.len() as int,
    )
    &&& post.current_column as nat == post.column_at(start)
    &&& out1 == out0 + post.clear_bytes() + post.render_bytes()
    &&& r is None
}

/// Ctrl-L: erase the whole screen, move home, and redraw from the top.
pub open spec fn ctrl_l_rel(
    pre: LineState,
    post: LineState,
    out0: Seq<u8>,
    out1: Seq<u8>,
    r: Option<ReadlineEvent>,
) -> bool {
    &&& post == pre
    &&& out1 == out0 + ansi_clear(true) + ansi_move_to(0, 0) + pre.clear_bytes()
        + pre.render_bytes()
    &&& r is None
}

/// Up or Down: one history navigation step (`next` is a step back in time);
/// when it yields a text, the buffer is replaced wholesale by that text's
/// clusters and the cursor goes to the end.
pub open spec fn history_step_rel(
    pre: LineState,
    post: LineState,
    out0: Seq<u8>,
    out1: Seq<u8>,
    r: Option<ReadlineEvent>,
    next: bool,
) -> bool {
    let m = pre.history.entries_view();
    let p0 = pre.history.position_view();
    let res = nav_result(m, p0, next);
    &&& post.history.entries_view() == m
    &&& post.history.max_size_view() == pre.history.max_size_view()
    &&& post.history.position_view() == nav_pos(m.len() as int, p0, next)
    &&& r is None
    &&& match res {
        Option::None => {
            &&& post == (LineState { history: post.history, ..pre })
            &&& out1 == out0
        },
        Option::Some(text) => {
            &&& post == (LineState {
                line: post.line,
                line_cursor_grapheme: post.line_cursor_grapheme,
                current_column: post.current_column,
                history: post.history,
                ..pre
            })
            &&& cluster_views(post.line@) == grapheme_clusters(text)
            &&& joined(cluster_views(post.line@)) == text
            &&& post.line_cursor_grapheme == post.line@.len()
            &&& post.current_column as nat == post.column_at(post.line@.len() as int)
            &&& out1 == out0 + pre.clear_bytes() + post.render_bytes()
        },
    }
}

/// A printable character: it merges into the cluster before the cursor when
/// the pending-cluster buffer says the new scalar combines with the previous
/// one; otherwise it starts a new cluster at the cursor and the cursor
/// advances by one.
pub open spec fn char_rel(
    pre: LineState,
    post: LineState,
    out0: Seq<u8>,
    out1: Seq<u8>,
    r: Option<ReadlineEvent>,
    c: char,
) -> bool {
    let nb = pre.cluster_buffer@.push(c);
    let prev = grapheme_clusters(pre.cluster_buffer@).len();
    let newn = grapheme_clusters(nb).len();
    let cur = pre.line_cursor_grapheme as int;
    &&& r is None
    &&& out1 == out0 + pre.clear_bytes() + post.render_bytes()
    &&& post == (LineState {
        line: post.line,
        line_cursor_grapheme: post.line_cursor_grapheme,
        current_column: post.current_column,
        cluster_buffer: post.cluster_buffer,
        ..pre
    })
    &&& post.current_column as nat == post.column_at(post.line_cursor_grapheme as int)
    &&& if newn != prev {
        &&& cluster_views(post.line@) == cluster_views(pre.line@).insert(cur, seq![c])
        &&& post.line_cursor_grapheme as int == cur + 1
        &&& post.cluster_buffer@ == if prev > 0 {
            joined(grapheme_clusters(nb).subrange(1, grapheme_clusters(nb).len() as int))
        } else {
            nb
        }
    } else {
        &&& post.cluster_buffer@ == nb
        &&& if cur > 0 {
            &&& cluster_views(post.line@) == cluster_views(pre.line@).update(
                cur - 1,
                cluster_views(pre.line@)[cur - 1].push(c),
            )
            &&& post.line_cursor_grapheme as int == cur
        } else {
            &&& cluster_views(post.line@) == cluster_views(pre.line@).insert(0, seq![c])
            &&& post.line_cursor_grapheme == 0
        }
    }
}

/// Resize: record the new geometry (zero columns taken as one) and force a
/// full clear and redraw, since the wrap geometry is invalidated.
pub open spec fn resize_rel(
    pre: LineState,
    post: LineState,
    out0: Seq<u8>,
    out1: Seq<u8>,
    r: Option<ReadlineEvent>,
    cols: u16,
    rows: u16,
) -> bool {
    &&& post == (LineState {
        term_size: (
            if cols >= 1 {
                cols
            } else {
                1u16
            },
            rows,
        ),
        ..pre
    })
    &&& out1 == out0 + post.clear_bytes() + post.render_bytes()
    &&& r is None
}

/// What one decoded event does: the full relation between the state before,
/// the state after, the bytes appended to the output buffer, and the result
/// handed to the caller.
pub open spec fn event_rel(
    pre: LineState,
    event: Event,
    post: LineState,
    out0: Seq<u8>,
    out1: Seq<u8>,
    r: Option<ReadlineEvent>,
) -> bool {
    match event {
        Event::Key { code, control, press } => {
            if !press {
                noop_rel(pre, post, out0, out1, r)
            } else if control {
                match code {
                    KeyCode::Char(c) => if c == 'd' {
                        eof_rel(pre, post, out0, out1, r)
                    } else if c == 'c' {
                        interrupt_rel(pre, post, out0, out1, r)
                    } else if c == 'l' {
                        ctrl_l_rel(pre, post, out0, out1, r)
                    } else if c == 'u' {
                        ctrl_u_rel(pre, post, out0, out1, r)
                    } else if c == 'w' {
                        ctrl_w_rel(pre, post, out0, out1, r)
                    } else if c == 'a' {
                        cursor_move_rel(pre, post, out0, out1, r, 0)
                    } else if c == 'e' {
                        cursor_move_rel(pre, post, out0, out1, r, pre.line@.len() as int)
                    } else {
                        noop_rel(pre, post, out0, out1, r)
                    },
                    KeyCode::Left => cursor_move_rel(
                        pre,
                        post,
                        out0,
                        out1,
                        r,
                        word_left_pos(pre.clusters(), pre.line_cursor_grapheme as int),
                    ),
                    KeyCode::Right => cursor_move_rel(
                        pre,
                        post,
                        out0,
                        out1,
                        r,
                        word_right_pos(pre.clusters(), pre.line_cursor_grapheme as int),
                    ),
                    _ => noop_rel(pre, post, out0, out1, r),
                }
            } else {
                match code {
                    KeyCode::Enter => enter_rel(pre, post, out0, out1, r),
                    KeyCode::Backspace => backspace_rel(pre, post, out0, out1, r),
                    KeyCode::Delete => delete_rel(pre, post, out0, out1, r),
                    KeyCode::Left => cursor_move_rel(
                        pre,
                        post,
                        out0,
                        out1,
                        r,
                        if pre.line_cursor_grapheme > 0 {
                            pre.line_cursor_grapheme as int - 1
                        } else {
                            0
                        },
                    ),
                    KeyCode::Right => cursor_move_rel(
                        pre,
                        post,
                        out0,
                        out1,
                        r,
                        if (pre.line_cursor_grapheme as int) < pre.line@.len() {
                            pre.line_cursor_grapheme as int + 1
                        } else {
                            pre.line@.len() as int
                        },
                    ),
                    KeyCode::Home => cursor_move_rel(pre, post, out0, out1, r, 0),
                    KeyCode::End => cursor_move_rel(
                        pre,
                        post,
                        out0,
                        out1,
                        r,
                        pre.line@.len() as int,
                    ),
                    KeyCode::Up => history_step_rel(pre, post, out0, out1, r, true),
                    KeyCode::Down => history_step_rel(pre, post, out0, out1, r, false),
                    KeyCode::Char(c) => char_rel(pre, post, out0, out1, r, c),
                }
            }
        },
        Event::Resize(x, y) => resize_rel(pre, post, out0, out1, r, x, y),
    }
}

} // verus!
