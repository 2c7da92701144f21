//! The edit-history manager: a bounded, linearly ordered sequence of
//! full-text snapshots and a cursor into it. `push` records a new state,
//! `undo` and `redo` move the cursor and hand back the text at its new
//! position, and `can_undo` / `can_redo` tell a caller which of the two is
//! possible. A fresh edit after an undo abandons the redo branch, and when
//! the capacity is exceeded the oldest snapshot is evicted.

use vstd::prelude::*;

verus! {

/// Capacity of a history built with `History::new`.
pub const DEFAULT_MAX_SIZE: usize = 100;

/// One recorded state of the text buffer: a full copy of its contents and
/// an optional caret offset. The caret offset is reserved for future use;
/// nothing fills it in or reads it back yet.
pub struct Snapshot {
    pub text: String,
    pub cursor_position: Option<usize>,
}

/// The mathematical value of a `History`: the recorded texts (oldest
/// first), the cursor into them, and the capacity bound.
#[verifier::ext_equal]
pub struct HistoryView {
    pub snapshots: Seq<Seq<char>>,
    pub current_index: int,
    pub max_size: int,
}

impl HistoryView {
    /// The invariant every history satisfies: at least one snapshot, no
    /// more than the capacity, and the cursor inside the sequence.
    pub open spec fn wf(self) -> bool {
        &&& 1 <= self.snapshots.len() <= self.max_size
        &&& 0 <= self.current_index < self.snapshots.len()
    }

    /// There is an older snapshot to go back to.
    pub open spec fn can_undo(self) -> bool {
        self.current_index > 0
    }

    /// There is a newer snapshot to go forward to.
    pub open spec fn can_redo(self) -> bool {
        self.current_index < self.snapshots.len() - 1
    }

    /// The text the cursor points at: what the buffer currently shows.
    pub open spec fn current_text(self) -> Seq<char> {
        self.snapshots[self.current_index]
    }

    /// What `push` does: drop everything beyond the cursor (the abandoned
    /// redo branch), append the new text, advance the cursor, and if the
    /// capacity is now exceeded evict the oldest snapshot, shifting the
    /// cursor left with it.
    pub open spec fn push_spec(self, text: Seq<char>) -> HistoryView {
        let kept = self.snapshots.take(self.current_index + 1).push(text);
        if kept.len() <= self.max_size {
            HistoryView { snapshots: kept, current_index: self.current_index + 1, ..self }
        } else {
            HistoryView { snapshots: kept.skip(1), current_index: self.current_index, ..self }
        }
    }

    /// What `undo` does to the state: step the cursor back if possible,
    /// otherwise leave the state as it is.
    pub open spec fn undo_spec(self) -> HistoryView {
        if self.can_undo() {
            HistoryView { current_index: self.current_index - 1, ..self }
        } else {
            self
        }
    }

    /// What `redo` does to the state: step the cursor forward if possible,
    /// otherwise leave the state as it is.
    pub open spec fn redo_spec(self) -> HistoryView {
        if self.can_redo() {
            HistoryView { current_index: self.current_index + 1, ..self }
        } else {
            self
        }
    }
}

/// A bounded, linear undo/redo history over full-text snapshots.
pub struct History {
    snapshots: Vec<Snapshot>,
    current_index: usize,
    max_size: usize,
}

impl View for History {
    type V = HistoryView;

    closed spec fn view(&self) -> HistoryView {
        HistoryView {
            snapshots: self.snapshots@.map_values(|s: Snapshot| s.text@),
            current_index: self.current_index as int,
            max_size: self.max_size as int,
        }
    }
}

impl History {
    /// The invariant, at the executable type.
    pub open spec fn wf(&self) -> bool {
        self@.wf()
    }

    /// A history with the given capacity, seeded with one snapshot of
    /// `initial_text` and the cursor on it.
    pub fn with_max_size(initial_text: String, max_size: usize) -> (h: History)
        requires
            max_size >= 1,
        ensures
            h.wf(),
            h@.snapshots =~~= seq![initial_text@],
            h@.current_index == 0,
            h@.max_size == max_size,
    {
        let mut snapshots: Vec<Snapshot> = Vec::new();
        snapshots.push(Snapshot { text: initial_text, cursor_position: None });
        History { snapshots, current_index: 0, max_size }
    }

    /// A history with the default capacity, seeded with one snapshot of
    /// `initial_text` and the cursor on it. Never fails.
    pub fn new(initial_text: String) -> (h: History)
        ensures
            h.wf(),
            h@.snapshots =~~= seq![initial_text@],
            h@.current_index == 0,
            h@.max_size == DEFAULT_MAX_SIZE,
    {
        Self::with_max_size(initial_text, DEFAULT_MAX_SIZE)
    }

    /// True iff the cursor can move back.
    pub fn can_undo(&self) -> (r: bool)
        ensures
            r == self@.can_undo(),
    {
        self.current_index > 0
    }

    /// True iff the cursor can move forward.
    pub fn can_redo(&self) -> (r: bool)
        requires
            self.wf(),
        ensures
            r == self@.can_redo(),
    {
        self.current_index < self.snapshots.len() - 1
    }

    /// Record a new undoable state: abandon the redo branch, append a
    /// snapshot of `current_text`, and evict the oldest snapshot if the
    /// capacity is exceeded. Afterwards the cursor is on the new snapshot,
    /// so there is never anything to redo right after a push.
    pub fn push(&mut self, current_text: String)
        requires
            old(self).wf(),
        ensures
            final(self).wf(),
            final(self)@ =~~= old(self)@.push_spec(current_text@),
            !final(self)@.can_redo(),
            final(self)@.current_text() == current_text@,
    {
        if self.current_index < self.snapshots.len() - 1 {
            self.snapshots.truncate(self.current_index + 1);
        }
        self.snapshots.push(Snapshot { text: current_text, cursor_position: None });
        self.current_index = self.current_index + 1;
        if self.snapshots.len() > self.max_size {
            self.snapshots.remove(0);
            self.current_index = self.current_index - 1;
        }
    }

    /// Step back one snapshot and return its text, or return `None` and
    /// leave the state untouched when there is nothing to undo.
    pub fn undo(&mut self) -> (r: Option<String>)
        requires
            old(self).wf(),
        ensures
            final(self).wf(),
            final(self)@ =~~= old(self)@.undo_spec(),
            old(self)@.can_undo() ==> r is Some && r->Some_0@ == final(self)@.current_text(),
            !old(self)@.can_undo() ==> r is None && final(self)@ == old(self)@,
    {
        if self.can_undo() {
            self.current_index = self.current_index - 1;
            Some(self.snapshots[self.current_index].text.clone())
        } else {
            None
        }
    }

    /// Step forward one snapshot and return its text, or return `None` and
    /// leave the state untouched when there is nothing to redo.
    pub fn redo(&mut self) -> (r: Option<String>)
        requires
            old(self).wf(),
        ensures
            final(self).wf(),
            final(self)@ =~~= old(self)@.redo_spec(),
            old(self)@.can_redo() ==> r is Some && r->Some_0@ == final(self)@.current_text(),
            !old(self)@.can_redo() ==> r is None && final(self)@ == old(self)@,
    {
        if self.can_redo() {
            self.current_index = self.current_index + 1;
            Some(self.snapshots[self.current_index].text.clone())
        } else {
            None
        }
    }
}

/// The state `History::new` (or `History::with_max_size`) yields: one
/// snapshot of `initial_text`, the cursor on it.
pub open spec fn fresh_view(initial_text: Seq<char>, max_size: int) -> HistoryView {
    HistoryView { snapshots: seq![initial_text], current_index: 0, max_size }
}

/// The state after pushing each element of `texts` in order.
pub open spec fn push_all(h: HistoryView, texts: Seq<Seq<char>>) -> HistoryView
    decreases texts.len(),
{
    if texts.len() == 0 {
        h
    } else {
        push_all(h.push_spec(texts[0]), texts.skip(1))
    }
}

/// A push never leaves a redo branch: every snapshot beyond the cursor —
/// whatever undos put there — is discarded before the new text is
/// appended, and the cursor lands on the new snapshot, which holds
/// exactly the pushed text. Only when the capacity was already full does
/// the oldest snapshot go too.
pub proof fn lemma_push_abandons_redo(h: HistoryView, text: Seq<char>)
    requires
        h.wf(),
    ensures
        h.push_spec(text).wf(),
        !h.push_spec(text).can_redo(),
        h.push_spec(text).current_text() == text,
        h.push_spec(text).max_size == h.max_size,
        h.current_index + 1 < h.max_size ==> h.push_spec(text).snapshots =~~= h.snapshots.take(
            h.current_index + 1,
        ).push(text),
        h.current_index + 1 == h.max_size ==> h.push_spec(text).snapshots =~~= h.snapshots.subrange(
            1,
            h.current_index + 1,
        ).push(text),
{
    if h.current_index + 1 == h.max_size {
        assert(h.snapshots.take(h.current_index + 1).push(text).skip(1) =~~= h.snapshots.subrange(
            1,
            h.current_index + 1,
        ).push(text));
    }
}

/// Any run of pushes from a state whose cursor is at the tail keeps the
/// cursor at the tail, and keeps exactly the newest `max_size` of all the
/// texts seen so far, oldest first.
pub proof fn lemma_push_run_at_tail(h: HistoryView, texts: Seq<Seq<char>>)
    requires
        h.wf(),
        h.current_index == h.snapshots.len() - 1,
    ensures
        ({
            let all = h.snapshots + texts;
            let r = push_all(h, texts);
            &&& r.wf()
            &&& r.max_size == h.max_size
            &&& r.current_index == r.snapshots.len() - 1
            &&& r.snapshots =~~= if all.len() <= h.max_size {
                all
            } else {
                all.skip(all.len() - h.max_size)
            }
        }),
    decreases texts.len(),
{
    let all = h.snapshots + texts;
    if texts.len() > 0 {
        let h1 = h.push_spec(texts[0]);
        assert(h.snapshots.take(h.current_index + 1) =~~= h.snapshots);
        lemma_push_run_at_tail(h1, texts.skip(1));
        let all1 = h1.snapshots + texts.skip(1);
        if h.snapshots.len() + 1 <= h.max_size {
            assert(all1 =~~= all);
        } else {
            assert(all1 =~~= all.skip(1));
            let r = push_all(h1, texts.skip(1));
            if all1.len() > h.max_size {
                assert(all.skip(1).skip(all1.len() - h.max_size) =~~= all.skip(
                    all.len() - h.max_size,
                ));
            }
        }
    } else {
        assert(all =~~= h.snapshots);
    }
}

/// Capacity not yet reached: after `n` pushes from a fresh history with
/// `n + 1 <= max_size`, there are `n + 1` snapshots — the seed followed by
/// every pushed text in order — and the cursor counts the pushes.
pub proof fn lemma_push_within_capacity(
    initial_text: Seq<char>,
    texts: Seq<Seq<char>>,
    max_size: int,
)
    requires
        max_size >= 1,
        texts.len() + 1 <= max_size,
    ensures
        ({
            let r = push_all(fresh_view(initial_text, max_size), texts);
            &&& r.snapshots.len() == texts.len() + 1
            &&& r.current_index == texts.len()
            &&& r.snapshots =~~= seq![initial_text] + texts
        }),
{
    lemma_push_run_at_tail(fresh_view(initial_text, max_size), texts);
    assert(fresh_view(initial_text, max_size).snapshots + texts =~~= seq![initial_text] + texts);
}

/// Capacity exceeded by `k = n + 1 - max_size` pushes: only the newest
/// `max_size` texts remain — the `k` oldest are gone — and the cursor
/// sits on the last snapshot.
pub proof fn lemma_push_beyond_capacity(
    initial_text: Seq<char>,
    texts: Seq<Seq<char>>,
    max_size: int,
)
    requires
        max_size >= 1,
        texts.len() + 1 > max_size,
    ensures
        ({
            let r = push_all(fresh_view(initial_text, max_size), texts);
            let all = seq![initial_text] + texts;
            &&& r.snapshots.len() == max_size
            &&& r.current_index == max_size - 1
            &&& r.snapshots =~~= all.skip(all.len() - max_size)
        }),
{
    lemma_push_run_at_tail(fresh_view(initial_text, max_size), texts);
    assert(fresh_view(initial_text, max_size).snapshots + texts =~~= seq![initial_text] + texts);
}

/// Round trip: wherever `undo` is possible, `undo` followed immediately
/// by `redo` restores the state exactly, so the text `redo` hands back is
/// the text that was current before the `undo`.
pub proof fn lemma_undo_redo_round_trip(h: HistoryView)
    requires
        h.wf(),
        h.can_undo(),
    ensures
        h.undo_spec().can_redo(),
        h.undo_spec().redo_spec() =~~= h,
        h.undo_spec().redo_spec().current_text() == h.current_text(),
{
}

} // verus!
