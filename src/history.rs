use vstd::prelude::*;

use crate::entry::{entries_model, ClipEntry, EntryModel};

verus! {

/// The most entries a history holds.
pub const HISTORY_SIZE: usize = 150;

/// The history after `e` arrives: when it is full, its oldest entry leaves
/// before `e` is added at the tail.
pub open spec fn bounded_push(h: Seq<EntryModel>, e: EntryModel) -> Seq<EntryModel> {
    if h.len() >= HISTORY_SIZE {
        h.drop_first().push(e)
    } else {
        h.push(e)
    }
}

/// The history after each of `es` arrives in turn.
pub open spec fn append_all(h: Seq<EntryModel>, es: Seq<EntryModel>) -> Seq<EntryModel>
    decreases es.len(),
{
    if es.len() == 0 {
        h
    } else {
        append_all(bounded_push(h, es[0]), es.drop_first())
    }
}

/// The last `n` elements of `s`, or all of them where there are fewer.
pub open spec fn newest<A>(s: Seq<A>, n: nat) -> Seq<A> {
    if s.len() <= n {
        s
    } else {
        s.subrange(s.len() - n, s.len() as int)
    }
}

proof fn lemma_bounded_push_is_newest(h: Seq<EntryModel>, e: EntryModel)
    requires
        h.len() <= HISTORY_SIZE,
    ensures
        bounded_push(h, e) == newest(h.push(e), HISTORY_SIZE as nat),
{
    assert(bounded_push(h, e) =~= newest(h.push(e), HISTORY_SIZE as nat));
}

proof fn lemma_newest_concat<A>(x: Seq<A>, y: Seq<A>, n: nat)
    ensures
        newest(newest(x, n) + y, n) == newest(x + y, n),
{
    assert(newest(newest(x, n) + y, n) =~= newest(x + y, n));
}

/// Appending any entries to a well-formed history leaves the newest
/// `HISTORY_SIZE` of the old entries followed by the new ones, in order.
pub proof fn lemma_append_all_keeps_newest(h: Seq<EntryModel>, es: Seq<EntryModel>)
    requires
        h.len() <= HISTORY_SIZE,
    ensures
        append_all(h, es) == newest(h + es, HISTORY_SIZE as nat),
    decreases es.len(),
{
    if es.len() == 0 {
        assert(h + es =~= h);
    } else {
        let n = HISTORY_SIZE as nat;
        let next = bounded_push(h, es[0]);
        lemma_bounded_push_is_newest(h, es[0]);
        lemma_append_all_keeps_newest(next, es.drop_first());
        lemma_newest_concat(h.push(es[0]), es.drop_first(), n);
        assert(h.push(es[0]) + es.drop_first() =~= h + es);
    }
}

/// After every append of any sequence of appends, a history holds at most
/// `HISTORY_SIZE` entries; an append to a full history removes exactly its
/// oldest entry.
pub proof fn lemma_bound_invariant(h: Seq<EntryModel>, es: Seq<EntryModel>)
    requires
        h.len() <= HISTORY_SIZE,
    ensures
        forall|k: int| 0 <= k <= es.len() ==> #[trigger] append_all(h, es.take(k)).len() <= HISTORY_SIZE,
        forall|e: EntryModel| h.len() == HISTORY_SIZE ==> #[trigger] bounded_push(h, e) == h.subrange(1, h.len() as int).push(e),
{
    assert forall|k: int| 0 <= k <= es.len() implies #[trigger] append_all(h, es.take(k)).len() <= HISTORY_SIZE by {
        lemma_append_all_keeps_newest(h, es.take(k));
    }
}

/// Appending `e1 .. e151` to an empty history leaves `e2 .. e151`.
pub proof fn lemma_fifo_eviction(es: Seq<EntryModel>)
    requires
        es.len() == HISTORY_SIZE + 1,
    ensures
        append_all(Seq::<EntryModel>::empty(), es) == es.drop_first(),
{
    lemma_append_all_keeps_newest(Seq::<EntryModel>::empty(), es);
    assert(Seq::<EntryModel>::empty() + es =~= es);
    assert(newest(es, HISTORY_SIZE as nat) =~= es.drop_first());
}

/// Removes the oldest (first) entry of a non-empty list; leaves an empty one as it is.
pub fn clear_oldest_value(history: &mut Vec<ClipEntry>)
    ensures
        old(history)@.len() > 0 ==> final(history)@ == old(history)@.drop_first(),
        old(history)@.len() == 0 ==> final(history)@ == old(history)@,
{
    if history.len() > 0 {
        history.remove(0);
        proof {
            assert(final(history)@ =~= old(history)@.drop_first());
        }
    }
}

/// The persisted file could not be parsed.
#[derive(Debug, Clone, Copy, PartialEq, Eq)]
pub struct PersistCorrupt;

/// The entries that loading the persisted file yielded, in file order;
/// none where the file was corrupt.
pub fn loaded_or_empty(loaded: Result<Vec<ClipEntry>, PersistCorrupt>) -> (r: Vec<ClipEntry>)
    ensures
        loaded matches Ok(v) ==> r == v,
        loaded is Err ==> r@.len() == 0,
{
    match loaded {
        Ok(v) => v,
        Err(_) => Vec::new(),
    }
}

/// The ordered, bounded sequence of recorded entries, oldest first.
pub struct History {
    entries: Vec<ClipEntry>,
}

impl View for History {
    type V = Seq<EntryModel>;

    closed spec fn view(&self) -> Seq<EntryModel> {
        entries_model(self.entries@)
    }
}

impl History {
    /// The history never holds more than `HISTORY_SIZE` entries.
    #[verifier::type_invariant]
    spec fn bounded(&self) -> bool {
        self.entries@.len() <= HISTORY_SIZE
    }

    /// An empty history.
    pub fn new() -> (r: History)
        ensures
            r@.len() <= HISTORY_SIZE,
            r@ == Seq::<EntryModel>::empty(),
    {
        let r = History { entries: Vec::new() };
        assert(r@ =~= Seq::<EntryModel>::empty());
        r
    }

    /// A history made of loaded entries, in their order; where there are more
    /// than `HISTORY_SIZE`, only the newest of them are kept.
    pub fn from_entries(entries: Vec<ClipEntry>) -> (r: History)
        ensures
            r@.len() <= HISTORY_SIZE,
            r@ == newest(entries_model(entries@), HISTORY_SIZE as nat),
    {
        let ghost all = entries@;
        let mut v = entries;
        while v.len() > HISTORY_SIZE
            invariant
                all.len() > HISTORY_SIZE ==> v@.len() >= HISTORY_SIZE,
                v@.len() <= all.len(),
                all.len() <= HISTORY_SIZE ==> v@.len() == all.len(),
                v@ == all.subrange(all.len() - v@.len(), all.len() as int),
            decreases v@.len(),
        {
            clear_oldest_value(&mut v);
            assert(v@ =~= all.subrange(all.len() - v@.len(), all.len() as int));
        }
        let r = History { entries: v };
        proof {
            if all.len() <= HISTORY_SIZE {
                assert(v@ =~= all);
            }
            assert(r@ =~= newest(entries_model(all), HISTORY_SIZE as nat));
        }
        r
    }

    /// The history at start-up from what the persisted file yielded (a
    /// missing file yields no entries): a corrupt file gives an empty history
    /// rather than an error.
    pub fn from_loaded(loaded: Result<Vec<ClipEntry>, PersistCorrupt>) -> (r: History)
        ensures
            r@.len() <= HISTORY_SIZE,
            loaded is Err ==> r@ == Seq::<EntryModel>::empty(),
            loaded matches Ok(v) ==> r@ == newest(entries_model(v@), HISTORY_SIZE as nat),
    {
        let r = History::from_entries(loaded_or_empty(loaded));
        proof {
            if loaded is Err {
                assert(r@ =~= Seq::<EntryModel>::empty());
            }
        }
        r
    }

    /// Records `entry` at the tail, first evicting the oldest entry when full.
    pub fn append(&mut self, entry: ClipEntry)
        ensures
            final(self)@.len() <= HISTORY_SIZE,
            final(self)@ == bounded_push(old(self)@, entry@),
    {
        proof {
            use_type_invariant(&*self);
        }
        let ghost e = entry@;
        let mut v: Vec<ClipEntry> = Vec::new();
        std::mem::swap(&mut self.entries, &mut v);
        if v.len() >= HISTORY_SIZE {
            clear_oldest_value(&mut v);
        }
        v.push(entry);
        assert(entries_model(v@) =~= bounded_push(old(self)@, e));
        self.entries = v;
    }

    /// Empties the history.
    pub fn clear(&mut self)
        ensures
            final(self)@ == Seq::<EntryModel>::empty(),
    {
        self.entries = Vec::new();
        assert(self@ =~= Seq::<EntryModel>::empty());
    }

    /// The number of entries, which is never more than `HISTORY_SIZE`.
    pub fn len(&self) -> (r: usize)
        ensures
            r == self@.len(),
            r <= HISTORY_SIZE,
    {
        proof {
            use_type_invariant(self);
        }
        self.entries.len()
    }

    /// A copy of the entries, oldest first, for readers that work without the lock.
    pub fn snapshot(&self) -> (r: Vec<ClipEntry>)
        ensures
            entries_model(r@) == self@,
    {
        let mut out: Vec<ClipEntry> = Vec::new();
        let mut i: usize = 0;
        while i < self.entries.len()
            invariant
                i <= self.entries@.len(),
                out@.len() == i,
                forall|k: int| 0 <= k < i ==> (#[trigger] out@[k])@ == self.entries@[k]@,
            decreases self.entries@.len() - i,
        {
            out.push(self.entries[i].duplicate());
            i = i + 1;
        }
        assert(entries_model(out@) =~= entries_model(self.entries@));
        out
    }

    /// The entries themselves, oldest first.
    pub fn into_entries(self) -> (r: Vec<ClipEntry>)
        ensures
            entries_model(r@) == self@,
    {
        self.entries
    }
}

} // verus!
