use vstd::prelude::*;

use crate::clock::Timestamp;

verus! {

/// The largest number of entries a history keeps.
pub const CAPACITY: usize = 20;

/// What an entry is, mathematically: its text and its capture time in
/// microseconds since the Unix epoch.
pub type EntryView = (Seq<char>, i64);

/// One captured clipboard text and the moment it was recorded.
#[derive(Clone, Debug)]
pub struct ClipboardEntry {
    pub content: String,
    pub timestamp: Timestamp,
}

impl View for ClipboardEntry {
    type V = EntryView;

    open spec fn view(&self) -> EntryView {
        (self.content@, self.timestamp.micros)
    }
}

/// The history after recording `e` into `h`: `e` goes in front, and when `h`
/// is full its oldest (last) entry is dropped first.
pub open spec fn pushed(h: Seq<EntryView>, e: EntryView) -> Seq<EntryView> {
    if h.len() >= CAPACITY {
        seq![e] + h.take(CAPACITY - 1)
    } else {
        seq![e] + h
    }
}

/// The history that results from recording each of `es` in order into an
/// empty one.
pub open spec fn after_all(es: Seq<EntryView>) -> Seq<EntryView>
    decreases es.len(),
{
    if es.len() == 0 {
        Seq::empty()
    } else {
        pushed(after_all(es.drop_last()), es.last())
    }
}

/// A bounded history of clipboard entries, newest first.
pub struct History {
    entries: Vec<ClipboardEntry>,
}

impl View for History {
    type V = Seq<EntryView>;

    closed spec fn view(&self) -> Seq<EntryView> {
        self.entries@.map_values(|e: ClipboardEntry| e@)
    }
}

impl History {
    /// The history never holds more than `CAPACITY` entries.
    pub open spec fn well_formed(&self) -> bool {
        self@.len() <= CAPACITY
    }

    /// An empty history.
    pub fn new() -> (r: History)
        ensures
            r@ == Seq::<EntryView>::empty(),
            r.well_formed(),
    {
        let r = History { entries: Vec::with_capacity(CAPACITY) };
        assert(r@ =~= Seq::<EntryView>::empty());
        r
    }

    /// Number of entries held.
    pub fn len(&self) -> (r: usize)
        ensures
            r == self@.len(),
    {
        self.entries.len()
    }

    /// The entries, newest first.
    pub fn snapshot(&self) -> (r: &Vec<ClipboardEntry>)
        ensures
            r@.len() == self@.len(),
            forall|i: int| 0 <= i < r@.len() ==> #[trigger] r@[i]@ == self@[i],
    {
        &self.entries
    }

    /// Records `content`, captured at `timestamp`, as the newest entry; when the
    /// history is full the oldest entry is evicted first. Equal contents are
    /// kept as separate entries.
    pub fn add_entry_at(&mut self, content: String, timestamp: Timestamp)
        requires
            old(self).well_formed(),
        ensures
            final(self).well_formed(),
            final(self)@ == pushed(old(self)@, (content@, timestamp.micros)),
            final(self)@[0] == (content@, timestamp.micros),
    {
        let ghost e: EntryView = (content@, timestamp.micros);
        let ghost h0 = self@;
        if self.entries.len() >= CAPACITY {
            self.entries.pop();
        }
        let ghost h1 = self@;
        assert(h1 =~= (if h0.len() >= CAPACITY { h0.take(CAPACITY - 1) } else { h0 }));
        self.entries.insert(0, ClipboardEntry { content, timestamp });
        assert(self@ =~= seq![e] + h1);
    }

    /// Records `content` as the newest entry, stamped with the current time;
    /// when the history is full the oldest entry is evicted first.
    pub fn add_entry(&mut self, content: String)
        requires
            old(self).well_formed(),
        ensures
            final(self).well_formed(),
            final(self)@.len() > 0,
            final(self)@[0].0 == content@,
            final(self)@[0].1 >= 0,
            final(self)@ == pushed(old(self)@, final(self)@[0]),
    {
        let now = Timestamp::now();
        self.add_entry_at(content, now);
    }
}

/// After any `n` insertions into an empty history it holds `min(n, CAPACITY)`
/// entries: the most recent ones, newest first.
pub proof fn lemma_after_all(es: Seq<EntryView>)
    ensures
        after_all(es).len() == if es.len() < CAPACITY { es.len() } else { CAPACITY as nat },
        forall|i: int|
            0 <= i < after_all(es).len() ==> #[trigger] after_all(es)[i] == es[es.len() - 1 - i],
    decreases es.len(),
{
    if es.len() > 0 {
        let prev = es.drop_last();
        lemma_after_all(prev);
        let h = after_all(prev);
        assert forall|i: int| 0 <= i < after_all(es).len() implies #[trigger] after_all(es)[i]
            == es[es.len() - 1 - i] by {
            if i > 0 {
                assert(after_all(es)[i] == h[i - 1]);
                assert(h[i - 1] == prev[prev.len() - 1 - (i - 1)]);
            }
        }
    }
}

/// Recording into a full history evicts exactly the oldest entry: the new one
/// is first, every other entry moves back by one place, and nothing else is
/// lost or repeated.
pub proof fn lemma_eviction(h: Seq<EntryView>, e: EntryView)
    requires
        h.len() == CAPACITY,
    ensures
        pushed(h, e).len() == CAPACITY,
        pushed(h, e)[0] == e,
        forall|i: int| 1 <= i < CAPACITY ==> #[trigger] pushed(h, e)[i] == h[i - 1],
        pushed(h, e).drop_first().push(h[CAPACITY - 1]) == h,
{
    assert(pushed(h, e).drop_first().push(h[CAPACITY - 1]) =~= h);
}

/// Recording the same text twice gives two entries, not one: the later first,
/// and, when the capture times do not go backwards, the times are in order.
pub proof fn lemma_no_dedup(h: Seq<EntryView>, c: Seq<char>, t1: i64, t2: i64)
    requires
        h.len() <= CAPACITY,
        t1 <= t2,
    ensures
        pushed(pushed(h, (c, t1)), (c, t2)).len() == if h.len() + 2 < CAPACITY {
            h.len() + 2
        } else {
            CAPACITY as nat
        },
        pushed(pushed(h, (c, t1)), (c, t2))[0] == (c, t2),
        pushed(pushed(h, (c, t1)), (c, t2))[1] == (c, t1),
        pushed(pushed(h, (c, t1)), (c, t2))[1].1 <= pushed(pushed(h, (c, t1)), (c, t2))[0].1,
{
}

} // verus!
