use vstd::prelude::*;

use crate::entry::{entries_model, ClipEntry, EntryModel};
use crate::flush::{flush_due, saves_on_change, FlushPolicy, FlushScheduler};
use crate::history::{append_all, bounded_push, lemma_append_all_keeps_newest, newest, History, HISTORY_SIZE};

verus! {

/// The mathematical value of a store: its entries and its flush schedule.
pub struct StoreModel {
    pub history: Seq<EntryModel>,
    pub scheduler: FlushScheduler,
}

/// The store after a timer tick at `now`.
pub open spec fn after_tick(m: StoreModel, now: u64) -> StoreModel {
    StoreModel {
        history: m.history,
        scheduler: FlushScheduler {
            policy: m.scheduler.policy,
            last_saved_ms: if flush_due(m.scheduler, now) {
                now
            } else {
                m.scheduler.last_saved_ms
            },
        },
    }
}

/// What a timer tick at `now` hands out to be saved, if anything.
pub open spec fn tick_flush(m: StoreModel, now: u64) -> Option<Seq<EntryModel>> {
    if flush_due(m.scheduler, now) {
        Some(m.history)
    } else {
        None
    }
}

/// The store after a clear at `now`, which is saved at once.
pub open spec fn after_clear(m: StoreModel, now: u64) -> StoreModel {
    StoreModel {
        history: Seq::<EntryModel>::empty(),
        scheduler: FlushScheduler { policy: m.scheduler.policy, last_saved_ms: now },
    }
}

/// The store after an entry `e` is recorded at `now`.
pub open spec fn after_record(m: StoreModel, e: EntryModel, now: u64) -> StoreModel {
    StoreModel {
        history: bounded_push(m.history, e),
        scheduler: FlushScheduler {
            policy: m.scheduler.policy,
            last_saved_ms: if saves_on_change(m.scheduler) {
                now
            } else {
                m.scheduler.last_saved_ms
            },
        },
    }
}

/// What recording `e` at `now` hands out to be saved, if anything.
pub open spec fn record_flush(m: StoreModel, e: EntryModel, now: u64) -> Option<Seq<EntryModel>> {
    if saves_on_change(m.scheduler) {
        Some(bounded_push(m.history, e))
    } else {
        None
    }
}

/// Something that happens to a running store between two clears.
pub enum StoreEvent {
    /// A timer tick at the given time.
    Tick(u64),
    /// An entry recorded at the given time.
    Record(EntryModel, u64),
}

/// The store after `ev`.
pub open spec fn after_event(m: StoreModel, ev: StoreEvent) -> StoreModel {
    match ev {
        StoreEvent::Tick(now) => after_tick(m, now),
        StoreEvent::Record(e, now) => after_record(m, e, now),
    }
}

/// What `ev` hands out to be saved, if anything.
pub open spec fn event_flush(m: StoreModel, ev: StoreEvent) -> Option<Seq<EntryModel>> {
    match ev {
        StoreEvent::Tick(now) => tick_flush(m, now),
        StoreEvent::Record(e, now) => record_flush(m, e, now),
    }
}

/// The store after each of `evs` in turn.
pub open spec fn events_applied(m: StoreModel, evs: Seq<StoreEvent>) -> StoreModel
    decreases evs.len(),
{
    if evs.len() == 0 {
        m
    } else {
        events_applied(after_event(m, evs[0]), evs.drop_first())
    }
}

/// The entries recorded by `evs`, in order.
pub open spec fn recorded(evs: Seq<StoreEvent>) -> Seq<EntryModel>
    decreases evs.len(),
{
    if evs.len() == 0 {
        Seq::<EntryModel>::empty()
    } else {
        match evs[0] {
            StoreEvent::Record(e, _) => seq![e] + recorded(evs.drop_first()),
            StoreEvent::Tick(_) => recorded(evs.drop_first()),
        }
    }
}

proof fn lemma_events_history(m: StoreModel, evs: Seq<StoreEvent>)
    ensures
        events_applied(m, evs).history == append_all(m.history, recorded(evs)),
    decreases evs.len(),
{
    if evs.len() > 0 {
        lemma_events_history(after_event(m, evs[0]), evs.drop_first());
        match evs[0] {
            StoreEvent::Record(e, _) => {
                let r = seq![e] + recorded(evs.drop_first());
                assert(r.drop_first() =~= recorded(evs.drop_first()));
                assert(r[0] == e);
            },
            StoreEvent::Tick(_) => {},
        }
    }
}

proof fn lemma_events_push(m: StoreModel, evs: Seq<StoreEvent>, ev: StoreEvent)
    ensures
        events_applied(m, evs.push(ev)) == after_event(events_applied(m, evs), ev),
    decreases evs.len(),
{
    if evs.len() > 0 {
        lemma_events_push(after_event(m, evs[0]), evs.drop_first(), ev);
        assert(evs.push(ev).drop_first() =~= evs.drop_first().push(ev));
        assert(evs.push(ev)[0] == evs[0]);
    } else {
        let one = evs.push(ev);
        assert(one.drop_first() =~= Seq::<StoreEvent>::empty());
        assert(one[0] == ev);
        assert(events_applied(after_event(m, ev), Seq::<StoreEvent>::empty()) == after_event(m, ev));
        assert(events_applied(m, evs) == m);
    }
}

/// Once a clear has returned, every later save, whether a timer tick or a
/// recorded entry asks for it, writes only entries recorded after the
/// clear: the newest `HISTORY_SIZE` of them, in order. A pending periodic
/// flush never brings back a cleared entry.
pub proof fn lemma_clear_is_durable(m: StoreModel, cleared_at: u64, evs: Seq<StoreEvent>)
    ensures
        forall|k: int|
            0 <= k < evs.len() ==> match #[trigger] event_flush(
                events_applied(after_clear(m, cleared_at), evs.take(k)),
                evs[k],
            ) {
                Some(h) => h == newest(recorded(evs.take(k + 1)), HISTORY_SIZE as nat) && forall|
                    i: int,
                | 0 <= i < h.len() ==> recorded(evs.take(k + 1)).contains(h[i]),
                None => true,
            },
{
    let c = after_clear(m, cleared_at);
    assert forall|k: int| 0 <= k < evs.len() implies match #[trigger] event_flush(
        events_applied(c, evs.take(k)),
        evs[k],
    ) {
        Some(h) => h == newest(recorded(evs.take(k + 1)), HISTORY_SIZE as nat) && forall|i: int|
            0 <= i < h.len() ==> recorded(evs.take(k + 1)).contains(h[i]),
        None => true,
    } by {
        let before = events_applied(c, evs.take(k));
        let r = recorded(evs.take(k + 1));
        assert(evs.take(k + 1) =~= evs.take(k).push(evs[k]));
        lemma_events_push(c, evs.take(k), evs[k]);
        lemma_events_history(c, evs.take(k + 1));
        lemma_append_all_keeps_newest(Seq::<EntryModel>::empty(), r);
        assert(Seq::<EntryModel>::empty() + r =~= r);
        if let Some(h) = event_flush(before, evs[k]) {
            assert(h == events_applied(c, evs.take(k + 1)).history);
            assert forall|i: int| 0 <= i < h.len() implies r.contains(h[i]) by {
                if r.len() > HISTORY_SIZE {
                    assert(h[i] == r[r.len() - HISTORY_SIZE + i]);
                } else {
                    assert(h[i] == r[i]);
                }
            }
        }
    }
}

/// The history of one process together with its flush schedule. Every
/// operation changes memory only and hands back what is to be written to
/// disk, so that the caller can write it without holding the store's lock.
pub struct HistoryStore {
    history: History,
    scheduler: FlushScheduler,
}

impl View for HistoryStore {
    type V = StoreModel;

    closed spec fn view(&self) -> StoreModel {
        StoreModel { history: self.history@, scheduler: self.scheduler }
    }
}

impl HistoryStore {
    /// A store over `history`, whose last save is taken to be at `now_ms`.
    pub fn new(history: History, policy: FlushPolicy, now_ms: u64) -> (r: HistoryStore)
        ensures
            r@.history == history@,
            r@.scheduler == (FlushScheduler { policy, last_saved_ms: now_ms }),
    {
        HistoryStore { history, scheduler: FlushScheduler::new(policy, now_ms) }
    }

    /// Records `entry` at `now_ms`. Under the save-on-change policy, returns
    /// the whole history to be saved.
    pub fn record(&mut self, entry: ClipEntry, now_ms: u64) -> (r: Option<Vec<ClipEntry>>)
        ensures
            final(self)@ == after_record(old(self)@, entry@, now_ms),
            r is Some <==> record_flush(old(self)@, entry@, now_ms) is Some,
            r matches Some(v) ==> record_flush(old(self)@, entry@, now_ms) == Some(entries_model(v@)),
    {
        self.history.append(entry);
        if self.scheduler.on_append(now_ms) {
            Some(self.history.snapshot())
        } else {
            None
        }
    }

    /// A timer tick at `now_ms`. When a save is due, returns the whole
    /// history to be saved.
    pub fn tick(&mut self, now_ms: u64) -> (r: Option<Vec<ClipEntry>>)
        ensures
            final(self)@ == after_tick(old(self)@, now_ms),
            r is Some <==> tick_flush(old(self)@, now_ms) is Some,
            r matches Some(v) ==> tick_flush(old(self)@, now_ms) == Some(entries_model(v@)),
    {
        if self.scheduler.on_tick(now_ms) {
            Some(self.history.snapshot())
        } else {
            None
        }
    }

    /// Empties the history at `now_ms` and returns what is to be saved at
    /// once, whatever the policy: the empty history.
    pub fn clear(&mut self, now_ms: u64) -> (r: Vec<ClipEntry>)
        ensures
            final(self)@ == after_clear(old(self)@, now_ms),
            r@.len() == 0,
    {
        self.history.clear();
        self.scheduler.saved_at(now_ms);
        Vec::new()
    }

    /// A copy of the entries, oldest first.
    pub fn snapshot(&self) -> (r: Vec<ClipEntry>)
        ensures
            entries_model(r@) == self@.history,
    {
        self.history.snapshot()
    }

    /// The number of entries.
    pub fn len(&self) -> (r: usize)
        ensures
            r == self@.history.len(),
    {
        self.history.len()
    }
}

} // verus!
