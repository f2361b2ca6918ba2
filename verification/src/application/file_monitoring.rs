//! The decisions of a running watch: which watcher events are repeats to drop, and how
//! long a path is remembered for that purpose.

use vstd::prelude::*;
use crate::domain::file_monitoring::{
    elapsed_ms, is_duplicate, is_literal_repeat, paths_equal, same_path, spec_is_duplicate,
    NormalizedFileEvent,
};

verus! {

/// Bounds how many watcher events may queue before the OS watcher thread blocks.
pub const EVENT_QUEUE_CAPACITY: usize = 256;

/// How long a path stays in the deduplication memory.
pub const DEDUPLICATION_WINDOW_MS: u128 = 1_000;

/// `event` was seen no more than `DEDUPLICATION_WINDOW_MS` before `now`.
pub open spec fn within_window(event: NormalizedFileEvent, now: u128) -> bool {
    elapsed_ms(now, event.observed_at_ms) <= DEDUPLICATION_WINDOW_MS
}

/// `recent[i]` is the remembered entry for `path`: the first one whose path equals it.
pub open spec fn is_entry_for(recent: Seq<NormalizedFileEvent>, path: Seq<char>, i: int) -> bool {
    &&& 0 <= i < recent.len()
    &&& same_path(path, recent[i].path@)
    &&& forall|j: int| 0 <= j < i ==> !same_path(path, #[trigger] recent[j].path@)
}

/// `next` repeats the remembered entry for its path.
pub open spec fn repeats_remembered(recent: Seq<NormalizedFileEvent>, next: NormalizedFileEvent) -> bool {
    exists|i: int| is_entry_for(recent, next.path@, i) && spec_is_duplicate(#[trigger] recent[i], next)
}

/// The entries that outlive recording `next`: those inside the window ending at `next`
/// whose path is not `next`'s, in their order.
pub open spec fn kept_entries(recent: Seq<NormalizedFileEvent>, next: NormalizedFileEvent) -> Seq<
    NormalizedFileEvent,
>
    decreases recent.len(),
{
    if recent.len() == 0 {
        Seq::empty()
    } else {
        let before = kept_entries(recent.drop_last(), next);
        let e = recent.last();
        if within_window(e, next.observed_at_ms) && !same_path(next.path@, e.path@) {
            before.push(e)
        } else {
            before
        }
    }
}

/// Remembers, per path, the last event that was recorded, so that bursts of identical
/// watcher events are recorded once. The memory is a list rather than a map keyed by the
/// path text because paths are matched by `Path` equality, not by their spelling.
pub struct EventDeduplicator {
    recent: Vec<NormalizedFileEvent>,
}

impl View for EventDeduplicator {
    type V = Seq<NormalizedFileEvent>;

    closed spec fn view(&self) -> Seq<NormalizedFileEvent> {
        self.recent@
    }
}

impl EventDeduplicator {
    pub fn new() -> (d: Self)
        ensures
            d@ == Seq::<NormalizedFileEvent>::empty(),
    {
        EventDeduplicator { recent: Vec::new() }
    }

    /// Decides whether `next` is recorded. It is dropped when it repeats the event
    /// remembered for its path. Otherwise it is recorded: entries older than the window
    /// are forgotten, the entry for its path is replaced, and `next` is remembered.
    pub fn should_record(&mut self, next: NormalizedFileEvent) -> (recorded: bool)
        ensures
            recorded == !repeats_remembered(old(self)@, next),
            !recorded ==> final(self)@ == old(self)@,
            recorded ==> final(self)@ == kept_entries(old(self)@, next).push(next),
            forall|i: int|
                0 <= i < old(self)@.len() && old(self)@[i].path@ == next.path@ && (forall|j: int|
                    0 <= j < i ==> !same_path(next.path@, #[trigger] old(self)@[j].path@))
                    && is_literal_repeat(#[trigger] old(self)@[i], next) ==> !recorded,
    {
        let ghost old_recent = self.recent@;
        let n = self.recent.len();
        let mut i: usize = 0;
        let mut found = false;
        while i < n && !found
            invariant
                n == self.recent.len(),
                self.recent@ == old_recent,
                i <= n,
                found ==> i < n && same_path(next.path@, old_recent[i as int].path@),
                forall|j: int| 0 <= j < i ==> !same_path(next.path@, #[trigger] old_recent[j].path@),
                forall|j: int| 0 <= j < i ==> next.path@ != #[trigger] old_recent[j].path@,
            decreases n - i + (if found { 0int } else { 1int }),
        {
            if paths_equal(next.path.as_str(), self.recent[i].path.as_str()) {
                found = true;
            } else {
                i = i + 1;
            }
        }
        if found {
            assert(is_entry_for(old_recent, next.path@, i as int));
            if is_duplicate(&self.recent[i], &next) {
                return false;
            }
            assert(!repeats_remembered(old_recent, next)) by {
                if repeats_remembered(old_recent, next) {
                    let k = choose|k: int| is_entry_for(old_recent, next.path@, k) && spec_is_duplicate(
                        #[trigger] old_recent[k],
                        next,
                    );
                    if k < i {
                        assert(!same_path(next.path@, old_recent[k].path@));
                    } else if k > i {
                        assert(!same_path(next.path@, old_recent[i as int].path@));
                    }
                }
            }
        } else {
            assert(!repeats_remembered(old_recent, next)) by {
                if repeats_remembered(old_recent, next) {
                    let k = choose|k: int| is_entry_for(old_recent, next.path@, k) && spec_is_duplicate(
                        #[trigger] old_recent[k],
                        next,
                    );
                    assert(!same_path(next.path@, old_recent[k].path@));
                }
            }
        }
        let now = next.observed_at_ms;
        let mut kept: Vec<NormalizedFileEvent> = Vec::new();
        let mut j: usize = 0;
        while j < n
            invariant
                n == self.recent.len(),
                self.recent@ == old_recent,
                j <= n,
                now == next.observed_at_ms,
                kept@ == kept_entries(old_recent.take(j as int), next),
            decreases n - j,
        {
            proof {
                assert(old_recent.take(j + 1).drop_last() =~= old_recent.take(j as int));
                assert(old_recent.take(j + 1).last() == old_recent[j as int]);
            }
            let e = &self.recent[j];
            if now.saturating_sub(e.observed_at_ms) <= DEDUPLICATION_WINDOW_MS && !paths_equal(
                next.path.as_str(),
                e.path.as_str(),
            ) {
                kept.push(e.duplicate());
            }
            j = j + 1;
        }
        assert(old_recent.take(n as int) =~= old_recent);
        kept.push(next);
        self.recent = kept;
        true
    }
}

/// After an event is recorded, everything remembered lies inside the window ending at
/// that event, so the memory cannot grow with the length of the run.
pub proof fn lemma_memory_stays_within_window(
    recent: Seq<NormalizedFileEvent>,
    next: NormalizedFileEvent,
)
    ensures
        forall|i: int|
            0 <= i < kept_entries(recent, next).push(next).len() ==> within_window(
                #[trigger] kept_entries(recent, next).push(next)[i],
                next.observed_at_ms,
            ),
    decreases recent.len(),
{
    if recent.len() > 0 {
        lemma_memory_stays_within_window(recent.drop_last(), next);
        let before = kept_entries(recent.drop_last(), next);
        assert forall|i: int| 0 <= i < kept_entries(recent, next).push(next).len() implies within_window(
            #[trigger] kept_entries(recent, next).push(next)[i],
            next.observed_at_ms,
        ) by {
            if i < before.len() {
                assert(kept_entries(recent, next).push(next)[i] == before.push(next)[i]);
            }
        }
    }
}

/// Recording an event drops the earlier entry for its path: no kept entry has the path
/// of the recorded event.
pub proof fn lemma_recorded_path_replaces_entry(
    recent: Seq<NormalizedFileEvent>,
    next: NormalizedFileEvent,
)
    ensures
        forall|i: int|
            0 <= i < kept_entries(recent, next).len() ==> !same_path(
                next.path@,
                (#[trigger] kept_entries(recent, next)[i]).path@,
            ),
    decreases recent.len(),
{
    if recent.len() > 0 {
        lemma_recorded_path_replaces_entry(recent.drop_last(), next);
        let before = kept_entries(recent.drop_last(), next);
        assert forall|i: int| 0 <= i < kept_entries(recent, next).len() implies !same_path(
            next.path@,
            (#[trigger] kept_entries(recent, next)[i]).path@,
        ) by {
            if i < before.len() {
                assert(kept_entries(recent, next)[i] == before[i]);
            }
        }
    }
}

} // verus!
