use vstd::prelude::*;

use crate::clock::Timestamp;
use crate::history::{pushed, EntryView, History};

verus! {

/// What a single poll of the clipboard yields: the change counter, the text
/// that could be read at that moment (if any), and the time of the poll.
pub type Observation = (isize, Option<Seq<char>>, i64);

/// The text of a clipboard read, as the history sees it: only present,
/// non-empty text counts.
pub open spec fn usable(content: Option<Seq<char>>) -> bool {
    content is Some && content->0.len() > 0
}

/// The history after a clipboard read yielded `content` at `micros`: usable
/// text is recorded, anything else leaves the history as it was.
pub open spec fn recorded(h: Seq<EntryView>, content: Option<Seq<char>>, micros: i64) -> Seq<
    EntryView,
> {
    if usable(content) {
        pushed(h, (content->0, micros))
    } else {
        h
    }
}

/// One poll of the clipboard against the cursor `cursor`: when the counter
/// moved, the cursor takes its value whatever the read gave, and the read is
/// recorded; otherwise nothing changes.
pub open spec fn ticked(cursor: isize, h: Seq<EntryView>, o: Observation) -> (isize, Seq<
    EntryView,
>) {
    if o.0 != cursor {
        (o.0, recorded(h, o.1, o.2))
    } else {
        (cursor, h)
    }
}

/// The cursor and history after the polls `obs`, in order.
pub open spec fn watched(cursor: isize, h: Seq<EntryView>, obs: Seq<Observation>) -> (isize, Seq<
    EntryView,
>)
    decreases obs.len(),
{
    if obs.len() == 0 {
        (cursor, h)
    } else {
        let prev = watched(cursor, h, obs.drop_last());
        ticked(prev.0, prev.1, obs.last())
    }
}

/// The view of a read as text.
pub open spec fn content_view(content: Option<String>) -> Option<Seq<char>> {
    match content {
        Some(s) => Some(s@),
        None => None,
    }
}

impl History {
    /// Records the result of a clipboard read taken at `timestamp`: present,
    /// non-empty text becomes the newest entry; absent or empty text is
    /// skipped. Returns whether an entry was added.
    pub fn record_at(&mut self, content: Option<String>, timestamp: Timestamp) -> (r: bool)
        requires
            old(self).well_formed(),
        ensures
            final(self).well_formed(),
            r == usable(content_view(content)),
            final(self)@ == recorded(old(self)@, content_view(content), timestamp.micros),
    {
        match content {
            Some(s) => {
                if s.as_str().is_empty() {
                    false
                } else {
                    self.add_entry_at(s, timestamp);
                    true
                }
            },
            None => false,
        }
    }

    /// Records the result of a clipboard read, stamped with the current time:
    /// present, non-empty text becomes the newest entry; absent or empty text
    /// is skipped. Returns whether an entry was added.
    pub fn record(&mut self, content: Option<String>) -> (r: bool)
        requires
            old(self).well_formed(),
        ensures
            final(self).well_formed(),
            r == usable(content_view(content)),
            r ==> final(self)@ == pushed(old(self)@, (content->0@, final(self)@[0].1)),
            !r ==> final(self)@ == old(self)@,
    {
        let now = Timestamp::now();
        self.record_at(content, now)
    }
}

/// Follows the system clipboard's change counter and decides when its text is
/// worth reading.
pub struct Watcher {
    cursor: isize,
}

impl View for Watcher {
    type V = isize;

    closed spec fn view(&self) -> isize {
        self.cursor
    }
}

impl Watcher {
    /// A watcher that takes the counter read at start as already seen, so that
    /// what the clipboard holds at start is not recorded.
    pub fn new(counter: isize) -> (r: Watcher)
        ensures
            r@ == counter,
    {
        Watcher { cursor: counter }
    }

    /// The last counter value seen.
    pub fn cursor(&self) -> (r: isize)
        ensures
            r == self@,
    {
        self.cursor
    }

    /// Takes a freshly read counter. Returns whether it differs from the last
    /// one seen, that is whether the clipboard's text should now be read; the
    /// cursor moves to the new value either way, so a change is handled once
    /// even when its text cannot be read.
    pub fn observe(&mut self, counter: isize) -> (r: bool)
        ensures
            r == (counter != old(self)@),
            final(self)@ == counter,
    {
        let changed = counter != self.cursor;
        self.cursor = counter;
        changed
    }

    /// One full poll: the counter read now, the text that a read would give
    /// now, and the time. A changed counter moves the cursor and records the
    /// text if it is usable; an unchanged one touches nothing. Returns whether
    /// an entry was added.
    pub fn tick(
        &mut self,
        history: &mut History,
        counter: isize,
        content: Option<String>,
        now: Timestamp,
    ) -> (r: bool)
        requires
            old(history).well_formed(),
        ensures
            final(history).well_formed(),
            (final(self)@, final(history)@) == ticked(
                old(self)@,
                old(history)@,
                (counter, content_view(content), now.micros),
            ),
            r == (counter != old(self)@ && usable(content_view(content))),
    {
        if self.observe(counter) {
            history.record_at(content, now)
        } else {
            false
        }
    }
}

/// Polls whose counter never moves from the cursor add nothing and leave the
/// cursor where it was, whatever text the clipboard holds meanwhile.
pub proof fn lemma_unchanged_counter_adds_nothing(
    cursor: isize,
    h: Seq<EntryView>,
    obs: Seq<Observation>,
)
    requires
        forall|i: int| 0 <= i < obs.len() ==> (#[trigger] obs[i]).0 == cursor,
    ensures
        watched(cursor, h, obs) == (cursor, h),
    decreases obs.len(),
{
    if obs.len() > 0 {
        lemma_unchanged_counter_adds_nothing(cursor, h, obs.drop_last());
        assert(obs.last().0 == cursor);
    }
}

/// A counter change whose text cannot be read adds nothing but still moves the
/// cursor: a later, different change is then recorded as usual, and a repeat of
/// the unreadable change's counter is not taken for a new change.
pub proof fn lemma_unreadable_change_advances_cursor(
    cursor: isize,
    h: Seq<EntryView>,
    c1: isize,
    t1: i64,
    c2: isize,
    content2: Option<Seq<char>>,
    t2: i64,
)
    requires
        c1 != cursor,
        c2 != c1,
    ensures
        watched(cursor, h, seq![(c1, None, t1)]) == (c1, h),
        watched(cursor, h, seq![(c1, None, t1), (c1, content2, t2)]) == (c1, h),
        watched(cursor, h, seq![(c1, None, t1), (c2, content2, t2)]) == (
            c2,
            recorded(h, content2, t2),
        ),
{
    let o1: Observation = (c1, None, t1);
    let o2a: Observation = (c1, content2, t2);
    let o2b: Observation = (c2, content2, t2);
    assert(seq![o1].drop_last() =~= Seq::<Observation>::empty());
    assert(watched(cursor, h, Seq::<Observation>::empty()) == (cursor, h));
    assert(watched(cursor, h, seq![o1]) == (c1, h));
    assert(seq![o1, o2a].drop_last() =~= seq![o1]);
    assert(seq![o1, o2b].drop_last() =~= seq![o1]);
}

} // verus!
