//! A bounded, ordered log of previously submitted input lines.
//!
//! Entries are stored oldest first. A navigation position of `None` means the
//! user is editing a fresh line; `Some(i)` means the entry at index `i` is
//! currently shown. Stepping back (`search_next`) walks towards the oldest
//! entry and sticks there; stepping forward (`search_previous`) walks towards
//! the newest entry and, on leaving it, returns an empty line exactly once.

use vstd::prelude::*;

verus! {

/// The result of adding one line to a history holding the entries `m` with
/// capacity `max`: empty lines and lines equal to the newest entry are
/// dropped, and the oldest entry is evicted when the capacity is exceeded.
pub open spec fn added(m: Seq<Seq<char>>, max: nat, line: Seq<char>) -> Seq<Seq<char>> {
    if line.len() == 0 || (m.len() > 0 && m.last() == line) {
        m
    } else {
        let pushed = m.push(line);
        if pushed.len() > max {
            pushed.subrange(1, pushed.len() as int)
        } else {
            pushed
        }
    }
}

/// The result of adding each line of `lines`, in order, to a history holding
/// `m` with capacity `max`.
pub open spec fn added_all(m: Seq<Seq<char>>, max: nat, lines: Seq<Seq<char>>) -> Seq<Seq<char>>
    decreases lines.len(),
{
    if lines.len() == 0 {
        m
    } else {
        added(added_all(m, max, lines.drop_last()), max, lines.last())
    }
}

/// The navigation position after stepping one entry back in time
/// (towards the oldest entry, which repeats).
pub open spec fn nav_next_pos(len: int, pos: Option<int>) -> Option<int> {
    match pos {
        Some(i) => Some(if i > 0 { i - 1 } else { 0 }),
        None => if len > 0 { Some(len - 1) } else { None },
    }
}

/// The navigation position after stepping one entry forward in time: leaving
/// the newest entry returns to the fresh line (`None`).
pub open spec fn nav_prev_pos(len: int, pos: Option<int>) -> Option<int> {
    match pos {
        Some(i) => if i == len - 1 { None } else { Some(i + 1) },
        None => None,
    }
}

/// One navigation step in either direction; `next` is a step back in time.
pub open spec fn nav_pos(len: int, pos: Option<int>, next: bool) -> Option<int> {
    if next {
        nav_next_pos(len, pos)
    } else {
        nav_prev_pos(len, pos)
    }
}

/// The text returned by one navigation step from position `pos` over the
/// entries `m`: the entry landed on, the empty sentinel when a forward step
/// leaves the newest entry, or nothing.
pub open spec fn nav_result(m: Seq<Seq<char>>, pos: Option<int>, next: bool) -> Option<Seq<char>> {
    if next {
        match nav_next_pos(m.len() as int, pos) {
            Some(j) => Some(m[j]),
            None => None,
        }
    } else {
        match pos {
            Some(i) => if i == m.len() - 1 {
                Some(Seq::empty())
            } else {
                Some(m[i + 1])
            },
            None => None,
        }
    }
}

/// The position reached from `start` after the navigation steps in `moves`
/// (`true` is a step back in time), over `len` entries.
pub open spec fn nav_pos_after(len: int, start: Option<int>, moves: Seq<bool>) -> Option<int>
    decreases moves.len(),
{
    if moves.len() == 0 {
        start
    } else {
        nav_pos(len, nav_pos_after(len, start, moves.drop_last()), moves.last())
    }
}

/// The view of an optional returned line.
pub open spec fn line_option_view(r: Option<String>) -> Option<Seq<char>> {
    match r {
        Some(s) => Some(s@),
        None => None,
    }
}

/// A navigation step that lands on an entry returns exactly that entry's text.
pub proof fn lemma_nav_lands_on_entry(m: Seq<Seq<char>>, pos: Option<int>, next: bool)
    ensures
        nav_pos(m.len() as int, pos, next) matches Some(k) ==> nav_result(m, pos, next) == Some(
            m[k],
        ),
{
}

/// History round-trip law: starting anywhere, any two alternating sequences of
/// navigation steps that arrive at the same net offset return the same entry
/// text on their final step. The entries themselves never change during
/// navigation, so the landed-on offset alone determines the text.
pub proof fn lemma_history_round_trip(
    m: Seq<Seq<char>>,
    start: Option<int>,
    moves: Seq<bool>,
    i: int,
    j: int,
)
    requires
        0 <= i < moves.len(),
        0 <= j < moves.len(),
        nav_pos_after(m.len() as int, start, moves.take(i + 1)) == nav_pos_after(
            m.len() as int,
            start,
            moves.take(j + 1),
        ),
        nav_pos_after(m.len() as int, start, moves.take(i + 1)) is Some,
    ensures
        nav_result(m, nav_pos_after(m.len() as int, start, moves.take(i)), moves[i]) == nav_result(
            m,
            nav_pos_after(m.len() as int, start, moves.take(j)),
            moves[j],
        ),
{
    let len = m.len() as int;
    lemma_nav_pos_after_step(len, start, moves, i);
    lemma_nav_pos_after_step(len, start, moves, j);
    lemma_nav_lands_on_entry(m, nav_pos_after(len, start, moves.take(i)), moves[i]);
    lemma_nav_lands_on_entry(m, nav_pos_after(len, start, moves.take(j)), moves[j]);
}

/// Unfolding one step of `nav_pos_after`: the position after the first `i + 1`
/// moves is one navigation step from the position after the first `i`.
pub proof fn lemma_nav_pos_after_step(len: int, start: Option<int>, moves: Seq<bool>, i: int)
    requires
        0 <= i < moves.len(),
    ensures
        nav_pos_after(len, start, moves.take(i + 1)) == nav_pos(
            len,
            nav_pos_after(len, start, moves.take(i)),
            moves[i],
        ),
{
    assert(moves.take(i + 1).drop_last() =~= moves.take(i));
    assert(moves.take(i + 1).last() == moves[i]);
}

/// A bounded, deduplicated log of past input lines with a navigation cursor.
pub struct History {
    entries: Vec<String>,
    max_size: usize,
    current_position: Option<usize>,
}

impl History {
    /// The stored lines, oldest first.
    pub closed spec fn entries_view(self) -> Seq<Seq<char>> {
        self.entries@.map_values(|s: String| s@)
    }

    /// The navigation position: `None` on a fresh line.
    pub closed spec fn position_view(self) -> Option<int> {
        match self.current_position {
            Some(i) => Some(i as int),
            None => None,
        }
    }

    /// The capacity.
    pub closed spec fn max_size_view(self) -> nat {
        self.max_size as nat
    }

    /// The history invariant: never more entries than the capacity, no empty
    /// entry, no two adjacent equal entries, and the navigation position, if
    /// set, names a stored entry.
    pub open spec fn wf(self) -> bool {
        &&& self.entries_view().len() <= self.max_size_view()
        &&& (forall|i: int|
            0 <= i < self.entries_view().len() ==> (#[trigger] self.entries_view()[i]).len() > 0)
        &&& (forall|i: int|
            0 <= i && i + 1 < self.entries_view().len() ==> (#[trigger] self.entries_view()[i])
                != self.entries_view()[i + 1])
        &&& match self.position_view() {
            Some(i) => i < self.entries_view().len(),
            None => true,
        }
    }

    /// Add a line to the history: drop it if it is empty or repeats the newest
    /// entry, evict the oldest entry when over capacity, and return to the
    /// fresh line in any case.
    pub fn add_entry(&mut self, line: String)
        requires
            old(self).wf(),
        ensures
            final(self).wf(),
            final(self).max_size_view() == old(self).max_size_view(),
            final(self).position_view() is None,
            final(self).entries_view() == added(
                old(self).entries_view(),
                old(self).max_size_view(),
                line@,
            ),
    {
        let ghost m = self.entries_view();
        self.current_position = None;
        let duplicate = match self.entries.last() {
            Some(last) => *last == line,
            None => false,
        };
        if duplicate || line.as_str().is_empty() {
            return ;
        }
        self.entries.push(line);
        assert(self.entries_view() =~= m.push(line@));
        if self.entries.len() > self.max_size {
            self.entries.remove(0);
            assert(self.entries_view() =~= m.push(line@).subrange(
                1,
                m.push(line@).len() as int,
            ));
        }
    }

    /// Change the capacity, evicting the oldest entries as needed, and return
    /// to the fresh line.
    pub fn set_max_size(&mut self, max_size: usize)
        requires
            old(self).wf(),
        ensures
            final(self).wf(),
            final(self).max_size_view() == max_size as nat,
            final(self).position_view() is None,
            final(self).entries_view() == if old(self).entries_view().len() <= max_size {
                old(self).entries_view()
            } else {
                old(self).entries_view().subrange(
                    old(self).entries_view().len() - max_size,
                    old(self).entries_view().len() as int,
                )
            },
    {
        let ghost m = self.entries_view();
        self.max_size = max_size;
        while self.entries.len() > max_size
            invariant
                self.max_size == max_size,
                self.entries@.len() <= m.len(),
                self.entries@.len() >= max_size || self.entries@.len() == m.len(),
                self.entries_view() =~= m.subrange(
                    m.len() - self.entries@.len(),
                    m.len() as int,
                ),
            decreases self.entries@.len(),
        {
            let ghost pre = self.entries@;
            self.entries.remove(0);
            proof {
                assert forall|t: int| 0 <= t < self.entries@.len() implies (#[trigger] self
                    .entries@[t])@ == m[m.len() - pre.len() + 1 + t] by {
                    assert(self.entries@[t] == pre[t + 1]);
                    assert(pre[t + 1]@ == m.subrange(m.len() - pre.len(), m.len() as int)[t
                        + 1]);
                }
                assert(self.entries_view() =~= m.subrange(
                    m.len() - self.entries@.len(),
                    m.len() as int,
                ));
            }
        }
        assert(self.entries_view() =~= if m.len() <= max_size {
            m
        } else {
            m.subrange(m.len() - max_size, m.len() as int)
        });
        self.reset_position();
    }

    /// The stored entries, oldest first.
    pub fn get_entries(&self) -> (result: &Vec<String>)
        ensures
            result@.map_values(|s: String| s@) == self.entries_view(),
    {
        &self.entries
    }

    /// Replace the stored entries by adding each given line in order, so that
    /// capacity, deduplication and the empty-line rule are respected.
    pub fn set_entries(&mut self, entries: Vec<String>)
        requires
            old(self).wf(),
        ensures
            final(self).wf(),
            final(self).max_size_view() == old(self).max_size_view(),
            final(self).position_view() is None,
            final(self).entries_view() == added_all(
                Seq::empty(),
                old(self).max_size_view(),
                entries@.map_values(|s: String| s@),
            ),
    {
        let ghost lines = entries@.map_values(|s: String| s@);
        self.entries.clear();
        self.current_position = None;
        assert(self.entries_view() =~= Seq::<Seq<char>>::empty());
        let mut i: usize = 0;
        while i < entries.len()
            invariant
                self.wf(),
                i <= entries.len(),
                self.max_size == old(self).max_size,
                lines == entries@.map_values(|s: String| s@),
                self.entries_view() == added_all(
                    Seq::empty(),
                    self.max_size as nat,
                    lines.take(i as int),
                ),
            decreases entries.len() - i,
        {
            let line = entries[i].clone();
            proof {
                assert(lines.take(i + 1).drop_last() =~= lines.take(i as int));
                assert(lines.take(i + 1).last() == lines[i as int]);
            }
            self.add_entry(line);
            i = i + 1;
        }
        proof {
            assert(lines.take(entries@.len() as int) =~= lines);
        }
        self.reset_position();
    }

    /// Return to the fresh line.
    pub fn reset_position(&mut self)
        ensures
            final(self).entries_view() == old(self).entries_view(),
            final(self).max_size_view() == old(self).max_size_view(),
            final(self).position_view() is None,
            old(self).wf() ==> final(self).wf(),
    {
        self.current_position = None;
    }

    /// Step one entry back in time and return the entry landed on, if any:
    /// from a fresh line this shows the newest entry, and from the oldest
    /// entry it repeats the oldest entry.
    pub fn search_next(&mut self, _current: &str) -> (result: Option<String>)
        requires
            old(self).wf(),
        ensures
            final(self).wf(),
            final(self).entries_view() == old(self).entries_view(),
            final(self).max_size_view() == old(self).max_size_view(),
            final(self).position_view() == nav_next_pos(
                old(self).entries_view().len() as int,
                old(self).position_view(),
            ),
            line_option_view(result) == nav_result(
                old(self).entries_view(),
                old(self).position_view(),
                true,
            ),
    {
        match self.current_position {
            Some(index) => {
                let idx = if index > 0 {
                    index - 1
                } else {
                    index
                };
                self.current_position = Some(idx);
                Some(self.entries[idx].clone())
            },
            None => {
                if self.entries.len() > 0 {
                    let idx = self.entries.len() - 1;
                    self.current_position = Some(idx);
                    Some(self.entries[idx].clone())
                } else {
                    None
                }
            },
        }
    }

    /// Step one entry forward in time: from the newest entry this returns the
    /// empty sentinel exactly once and goes back to the fresh line; from a
    /// fresh line it returns nothing.
    pub fn search_previous(&mut self, _current: &str) -> (result: Option<String>)
        requires
            old(self).wf(),
        ensures
            final(self).wf(),
            final(self).entries_view() == old(self).entries_view(),
            final(self).max_size_view() == old(self).max_size_view(),
            final(self).position_view() == nav_prev_pos(
                old(self).entries_view().len() as int,
                old(self).position_view(),
            ),
            line_option_view(result) == nav_result(
                old(self).entries_view(),
                old(self).position_view(),
                false,
            ),
    {
        match self.current_position {
            Some(index) => {
                if index == self.entries.len() - 1 {
                    self.current_position = None;
                    Some(String::new())
                } else {
                    let idx = index + 1;
                    self.current_position = Some(idx);
                    Some(self.entries[idx].clone())
                }
            },
            None => None,
        }
    }
}

impl Default for History {
    /// A fresh history: no entries, capacity 1000, fresh-line position.
    fn default() -> (result: Self)
        ensures
            result.wf(),
            result.entries_view() == Seq::<Seq<char>>::empty(),
            result.max_size_view() == 1000,
            result.position_view() is None,
    {
        let h = History { entries: Vec::new(), max_size: 1000, current_position: None };
        proof {
            assert(h.entries_view() =~= Seq::<Seq<char>>::empty());
        }
        h
    }
}

} // verus!
