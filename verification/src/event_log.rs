//! The bounded store of retained events.
//!
//! It holds events from selected sources, capped by the retention limit.
//! Message-type, channel, and prefix filters are applied by [`EventLog::view`]
//! when reading, never when writing, so narrowing a filter does not throw
//! retained events away and widening it again brings them back.

use crate::event::MidiEvent;
use crate::filter::{filter_admits, FilterSettings};
use crate::ids::{RetentionLimit, SourceId};
use std::collections::VecDeque;
use vstd::prelude::*;

verus! {

broadcast use vstd::std_specs::vecdeque::group_vec_dequeue_axioms;

/// The newest `n` entries of a list, or all of it when it is no longer.
pub open spec fn keep_newest<T>(s: Seq<T>, n: nat) -> Seq<T> {
    if s.len() <= n {
        s
    } else {
        s.skip(s.len() - n)
    }
}

/// Whether an event's source is none of these ids.
pub open spec fn from_none_of(ids: Seq<SourceId>, event: MidiEvent) -> bool {
    !ids.contains(event.source)
}

/// A fixed-capacity, oldest-first-eviction log of observed events.
#[derive(Debug)]
pub struct EventLog {
    entries: VecDeque<MidiEvent>,
    limit: RetentionLimit,
}

impl EventLog {
    #[verifier::type_invariant]
    spec fn within_limit(self) -> bool {
        self.entries@.len() <= self.limit@
    }

    /// The retained events, oldest first.
    pub closed spec fn retained(&self) -> Seq<MidiEvent> {
        self.entries@
    }

    /// The cap.
    pub closed spec fn cap(&self) -> RetentionLimit {
        self.limit
    }

    /// Creates an empty log with the given cap.
    pub fn new(limit: RetentionLimit) -> (log: Self)
        ensures
            log.retained() == Seq::<MidiEvent>::empty(),
            log.cap() == limit,
    {
        Self { entries: VecDeque::new(), limit }
    }

    /// Appends an event, evicting the oldest if that would exceed the cap.
    pub fn push(&mut self, event: MidiEvent)
        ensures
            final(self).retained() == keep_newest(old(self).retained().push(event), old(self).cap()@ as nat),
            final(self).cap() == old(self).cap(),
    {
        let mut entries: VecDeque<MidiEvent> = VecDeque::new();
        std::mem::swap(&mut entries, &mut self.entries);
        entries.push_back(event);
        evict_overflow(&mut entries, self.limit);
        self.entries = entries;
    }

    /// Replaces the cap, discarding the excess oldest events immediately.
    pub fn set_limit(&mut self, limit: RetentionLimit)
        ensures
            final(self).retained() == keep_newest(old(self).retained(), limit@ as nat),
            final(self).cap() == limit,
    {
        let mut entries: VecDeque<MidiEvent> = VecDeque::new();
        std::mem::swap(&mut entries, &mut self.entries);
        evict_overflow(&mut entries, limit);
        *self = EventLog { entries, limit };
    }

    /// The current cap.
    pub fn limit(&self) -> (limit: RetentionLimit)
        ensures
            limit == self.cap(),
    {
        self.limit
    }

    /// Discards every retained event.
    pub fn clear(&mut self)
        ensures
            final(self).retained() == Seq::<MidiEvent>::empty(),
            final(self).cap() == old(self).cap(),
    {
        self.entries = VecDeque::new();
    }

    /// How many events are retained, before any filter is applied.
    pub fn len(&self) -> (n: usize)
        ensures
            n == self.retained().len(),
            n <= self.cap()@,
    {
        proof {
            use_type_invariant(self);
        }
        self.entries.len()
    }

    /// Whether nothing is retained.
    pub fn is_empty(&self) -> (b: bool)
        ensures
            b == (self.retained().len() == 0),
    {
        self.entries.len() == 0
    }

    /// Drops the retained events belonging to sources that are no longer
    /// selected, keeping the rest in order, so the visible list matches the
    /// current selection rather than showing history from a source the user has
    /// just stopped watching.
    pub fn retain_selected(&mut self, deselected: &[SourceId])
        ensures
            final(self).retained() == old(self).retained().filter(|e: MidiEvent| from_none_of(deselected@, e)),
            final(self).cap() == old(self).cap(),
    {
        proof {
            use_type_invariant(&*self);
        }
        let mut entries: VecDeque<MidiEvent> = VecDeque::new();
        std::mem::swap(&mut entries, &mut self.entries);
        let ghost start = entries@;
        let mut kept: VecDeque<MidiEvent> = VecDeque::new();
        let mut taken: usize = 0;
        let total = entries.len();
        while entries.len() > 0
            invariant
                taken + entries@.len() == start.len(),
                start.len() == total,
                entries@ == start.skip(taken as int),
                kept@ == start.take(taken as int).filter(|e: MidiEvent| from_none_of(deselected@, e)),
            decreases entries@.len(),
        {
            let event = entries.pop_front().unwrap();
            proof {
                assert(event == start[taken as int]);
                assert(start.take(taken + 1).drop_last() =~= start.take(taken as int));
                assert(start.take(taken + 1).last() == event);
                reveal_with_fuel(Seq::filter, 1);
            }
            let ghost before = kept@;
            if !contains_id(deselected, event.source) {
                kept.push_back(event);
                proof {
                    reveal_with_fuel(Seq::filter, 1);
                    assert(start.take(taken + 1).filter(|e: MidiEvent| from_none_of(deselected@, e)) =~= before.push(event));
                }
            } else {
                proof {
                    reveal_with_fuel(Seq::filter, 1);
                    assert(start.take(taken + 1).filter(|e: MidiEvent| from_none_of(deselected@, e)) =~= before);
                }
            }
            taken = taken + 1;
            proof {
                assert(entries@ =~= start.skip(taken as int));
            }
        }
        proof {
            assert(start.take(taken as int) =~= start);
            start.lemma_filter_len(|e: MidiEvent| from_none_of(deselected@, e));
        }
        let limit = self.limit;
        *self = EventLog { entries: kept, limit };
    }

    /// The retained events that pass the filter, oldest first.
    pub fn view<'log>(&'log self, filter: &FilterSettings) -> (events: Vec<&'log MidiEvent>)
        ensures
            events@.map_values(|e: &MidiEvent| *e) == self.retained().filter(|e: MidiEvent| filter_admits(*filter, e)),
    {
        let mut events: Vec<&'log MidiEvent> = Vec::new();
        let mut i: usize = 0;
        while i < self.entries.len()
            invariant
                i <= self.entries@.len(),
                events@.map_values(|e: &MidiEvent| *e) == self.entries@.take(i as int).filter(
                    |e: MidiEvent| filter_admits(*filter, e),
                ),
            decreases self.entries@.len() - i,
        {
            let event = &self.entries[i];
            let ghost before = events@;
            proof {
                assert(self.entries@.take(i + 1).drop_last() =~= self.entries@.take(i as int));
                assert(self.entries@.take(i + 1).last() == *event);
            }
            if filter.admits(event) {
                events.push(event);
                proof {
                    reveal_with_fuel(Seq::filter, 1);
                    assert(events@.map_values(|e: &MidiEvent| *e) =~= before.map_values(|e: &MidiEvent| *e).push(*event));
                }
            } else {
                proof {
                    reveal_with_fuel(Seq::filter, 1);
                }
            }
            i = i + 1;
        }
        proof {
            assert(self.entries@.take(i as int) =~= self.entries@);
        }
        events
    }
}

impl Default for EventLog {
    /// An empty log with the default cap.
    fn default() -> (log: Self)
        ensures
            log.retained() == Seq::<MidiEvent>::empty(),
            log.cap()@ == 1000,
    {
        Self::new(RetentionLimit::default())
    }
}

/// Removes oldest entries until at most `limit` remain.
fn evict_overflow(entries: &mut VecDeque<MidiEvent>, limit: RetentionLimit)
    ensures
        final(entries)@ == keep_newest(old(entries)@, limit@ as nat),
        final(entries)@.len() <= limit@,
{
    let ghost start = entries@;
    while entries.len() > limit.get()
        invariant
            entries@.len() >= keep_newest(start, limit@ as nat).len(),
            keep_newest(entries@, limit@ as nat) == keep_newest(start, limit@ as nat),
        decreases entries@.len(),
    {
        let ghost before = entries@;
        entries.pop_front();
        proof {
            assert(keep_newest(entries@, limit@ as nat) =~= keep_newest(before, limit@ as nat));
        }
    }
    proof {
        assert(keep_newest(entries@, limit@ as nat) =~= entries@);
    }
}

/// Whether a list of ids holds this one.
pub fn contains_id(ids: &[SourceId], id: SourceId) -> (b: bool)
    ensures
        b == ids@.contains(id),
{
    let mut i: usize = 0;
    while i < ids.len()
        invariant
            i <= ids@.len(),
            forall|k: int| 0 <= k < i ==> ids@[k] != id,
        decreases ids@.len() - i,
    {
        if ids[i] == id {
            proof {
                assert(ids@[i as int] == id);
            }
            return true;
        }
        i = i + 1;
    }
    false
}

} // verus!
