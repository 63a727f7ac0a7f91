//! Turning arrivals into events: one decoder per source, so a transfer that
//! spans deliveries is joined, and one counter numbering every event in the
//! order it completed.
//!
//! Every outcome becomes a row, including those that are not valid messages:
//! that is the point of the decoder reporting them as values.

use crate::adapter::{delivered, event_parts};
use crate::decoder::{abandon, decoded_views, feed, fresh_decoder, Decoded, DecoderModel, MessageDecoder};
use crate::event::MidiEvent;
use crate::ids::{Arrival, EventId, SourceId};
use crate::message::{InvalidReason, MessageModel, MidiMessage};
use crate::session_ids::{keys_distinct, lemma_recalled_at, recalled};
use crate::text::copy_bytes;
use vstd::prelude::*;

verus! {

/// The id `n` places after `start`, which stops at the largest id rather
/// than wrapping.
pub open spec fn id_after(start: u32, n: nat) -> u32 {
    if start + n <= u32::MAX {
        (start + n) as u32
    } else {
        u32::MAX
    }
}

/// Whether `events` are `outcomes` from `source`, delivered at `at` and
/// numbered consecutively from `start`.
pub open spec fn numbered_from(
    events: Seq<MidiEvent>,
    start: u32,
    at: Arrival,
    source: SourceId,
    outcomes: Seq<crate::decoder::DecodedModel>,
) -> bool {
    &&& events.len() == outcomes.len()
    &&& forall|i: int|
        0 <= i < events.len() ==> {
            &&& (#[trigger] events[i]).id@ == id_after(start, i as nat)
            &&& events[i].arrival == at
            &&& events[i].source == source
            &&& (events[i].message@, events[i].raw@) == delivered(outcomes[i])
        }
}

/// The decoding state for every source and the next event's identifier.
#[derive(Debug)]
pub struct Worker {
    decoders: Vec<(SourceId, MessageDecoder)>,
    next_event_id: EventId,
}

impl Worker {
    /// The sources with decoding state, each beside that state.
    pub closed spec fn entries(&self) -> Seq<(SourceId, DecoderModel)> {
        self.decoders@.map_values(|e: (SourceId, MessageDecoder)| (e.0, e.1@))
    }

    /// The decoding state of one source; a source not heard from yet has a
    /// fresh decoder.
    pub open spec fn state_of(&self, source: SourceId) -> DecoderModel {
        match recalled(self.entries(), source) {
            Some(state) => state,
            None => fresh_decoder(),
        }
    }

    /// The raw value of the next event's identifier.
    pub closed spec fn next_id(&self) -> u32 {
        self.next_event_id@
    }

    #[verifier::type_invariant]
    spec fn well_formed(&self) -> bool {
        keys_distinct(self.entries())
    }

    /// A worker that has heard from no source, numbering from the first id.
    pub fn new() -> (w: Self)
        ensures
            forall|source: SourceId| #[trigger] w.state_of(source) == fresh_decoder(),
            w.next_id() == 0,
    {
        let w = Worker { decoders: Vec::new(), next_event_id: EventId::first() };
        assert(w.entries() =~= Seq::<(SourceId, DecoderModel)>::empty());
        w
    }

    /// Numbers one event and advances the counter.
    fn publish(&mut self, source: SourceId, at: Arrival, message: MidiMessage, raw: Vec<u8>) -> (e:
        MidiEvent)
        ensures
            e.id@ == old(self).next_id(),
            e.arrival == at,
            e.source == source,
            e.message == message,
            e.raw == raw,
            final(self).next_id() == id_after(old(self).next_id(), 1),
            final(self).entries() == old(self).entries(),
    {
        proof {
            use_type_invariant(&*self);
        }
        let id = self.next_event_id;
        self.next_event_id = id.next();
        MidiEvent::new(id, at, source, message, raw)
    }

    /// Numbers each outcome in turn.
    fn deliver_all(&mut self, source: SourceId, at: Arrival, outcomes: Vec<Decoded>) -> (events: Vec<
        MidiEvent,
    >)
        ensures
            numbered_from(events@, old(self).next_id(), at, source, decoded_views(outcomes@)),
            final(self).next_id() == id_after(old(self).next_id(), outcomes@.len()),
            final(self).entries() == old(self).entries(),
    {
        let ghost all = decoded_views(outcomes@);
        let ghost start = self.next_id();
        let mut rest = outcomes;
        let mut events: Vec<MidiEvent> = Vec::new();
        while rest.len() > 0
            invariant
                events@.len() + rest@.len() == all.len(),
                decoded_views(rest@) == all.skip(events@.len() as int),
                numbered_from(events@, start, at, source, all.take(events@.len() as int)),
                self.next_id() == id_after(start, events@.len() as nat),
                self.entries() == old(self).entries(),
            decreases rest@.len(),
        {
            let ghost k: int = events@.len() as int;
            let ghost pending = rest@;
            let outcome = rest.remove(0);
            proof {
                assert(decoded_views(pending)[0] == all.skip(k)[0]);
                assert(outcome@ == all[k as int]);
                assert(decoded_views(rest@) =~= all.skip(k + 1)) by {
                    assert forall|j: int| 0 <= j < rest@.len() implies decoded_views(rest@)[j]
                        == all.skip(k + 1)[j] by {
                        assert(rest@[j] == pending[j + 1]);
                        assert(decoded_views(pending)[j + 1] == all.skip(k)[j + 1]);
                    }
                }
            }
            let (message, raw) = event_parts(outcome);
            let event = self.publish(source, at, message, raw);
            events.push(event);
            proof {
                assert(all.take(k + 1).drop_last() =~= all.take(k));
                assert forall|i: int| 0 <= i < events@.len() implies {
                    &&& (#[trigger] events@[i]).id@ == id_after(start, i as nat)
                    &&& events@[i].arrival == at
                    &&& events@[i].source == source
                    &&& (events@[i].message@, events@[i].raw@) == delivered(all.take(k + 1)[i])
                } by {
                    if i < k {
                        assert(all.take(k + 1)[i] == all.take(k)[i]);
                    }
                }
            }
        }
        proof {
            assert(all.take(events@.len() as int) =~= all);
        }
        events
    }

    /// Where `source`'s decoder sits, or `None` if it has none yet.
    fn position_of(decoders: &Vec<(SourceId, MessageDecoder)>, source: SourceId) -> (at: Option<usize>)
        ensures
            match at {
                Some(i) => i < decoders@.len() && decoders@[i as int].0 == source,
                None => forall|j: int| 0 <= j < decoders@.len() ==> decoders@[j].0 != source,
            },
    {
        let mut i: usize = 0;
        while i < decoders.len()
            invariant
                i <= decoders@.len(),
                forall|j: int| 0 <= j < i ==> decoders@[j].0 != source,
            decreases decoders@.len() - i,
        {
            if decoders[i].0 == source {
                return Some(i);
            }
            i = i + 1;
        }
        None
    }

    /// Runs a delivery through its source's decoder and numbers what it
    /// completed, in the order completed.
    pub fn decode(&mut self, source: SourceId, at: Arrival, bytes: &[u8]) -> (events: Vec<MidiEvent>)
        ensures
            final(self).state_of(source) == feed(old(self).state_of(source), bytes@).0,
            forall|other: SourceId|
                other != source ==> #[trigger] final(self).state_of(other) == old(self).state_of(other),
            numbered_from(
                events@,
                old(self).next_id(),
                at,
                source,
                feed(old(self).state_of(source), bytes@).1,
            ),
            final(self).next_id() == id_after(
                old(self).next_id(),
                feed(old(self).state_of(source), bytes@).1.len(),
            ),
    {
        proof {
            use_type_invariant(&*self);
        }
        let ghost before = self.entries();
        let mut decoders: Vec<(SourceId, MessageDecoder)> = Vec::new();
        std::mem::swap(&mut decoders, &mut self.decoders);
        proof {
            lemma_recalled_at(before, source);
        }
        let (index, mut decoder) = match Self::position_of(&decoders, source) {
            Some(i) => {
                proof {
                    assert(before[i as int].0 == source);
                }
                let (_, d) = decoders.remove(i);
                (i, d)
            },
            None => {
                proof {
                    assert forall|j: int| 0 <= j < before.len() implies before[j].0 != source by {
                        assert(before[j].0 == decoders@[j].0);
                    }
                }
                (decoders.len(), MessageDecoder::new())
            },
        };
        assert(decoder@ == old(self).state_of(source));
        let outcomes = decoder.feed(bytes);
        let ghost state = decoder@;
        decoders.insert(index, (source, decoder));
        proof {
            let after = decoders@.map_values(|e: (SourceId, MessageDecoder)| (e.0, e.1@));
            assert(forall|j: int| 0 <= j < after.len() ==> #[trigger] after[j].0 == if j < before.len() {
                before[j].0
            } else {
                source
            });
            assert(keys_distinct(after));
            lemma_recalled_at(after, source);
            assert(after[index as int] == (source, state));
            assert forall|other: SourceId| other != source implies recalled(after, other) == recalled(
                before,
                other,
            ) by {
                lemma_recalled_at(before, other);
                lemma_recalled_at(after, other);
                assert forall|j: int| 0 <= j < after.len() && after[j].0 == other implies j < before.len()
                    && after[j] == before[j] by {}
                assert forall|j: int| 0 <= j < before.len() && before[j].0 == other implies after[j]
                    == before[j] by {}
            }
        }
        self.decoders = decoders;
        self.deliver_all(source, at, outcomes)
    }

    /// Flushes a departing source's half-finished transfer or message, if it had one,
    /// and forgets its decoder.
    ///
    /// Called when a port closes, so an interrupted dump is reported rather
    /// than held forever waiting for an end that will not come.
    pub fn abandon(&mut self, source: SourceId, at: Arrival) -> (event: Option<MidiEvent>)
        ensures
            final(self).state_of(source) == fresh_decoder(),
            forall|other: SourceId|
                other != source ==> #[trigger] final(self).state_of(other) == old(self).state_of(other),
            match abandon(old(self).state_of(source)).1 {
                None => event is None && final(self).next_id() == old(self).next_id(),
                Some(outcome) => event matches Some(e) && e.id@ == old(self).next_id()
                    && e.arrival == at && e.source == source && (e.message@, e.raw@) == delivered(
                    outcome,
                ) && final(self).next_id() == id_after(old(self).next_id(), 1),
            },
    {
        proof {
            use_type_invariant(&*self);
        }
        let ghost before = self.entries();
        let mut decoders: Vec<(SourceId, MessageDecoder)> = Vec::new();
        std::mem::swap(&mut decoders, &mut self.decoders);
        proof {
            lemma_recalled_at(before, source);
        }
        let outcome = match Self::position_of(&decoders, source) {
            Some(i) => {
                proof {
                    assert(before[i as int].0 == source);
                }
                let (_, mut decoder) = decoders.remove(i);
                proof {
                    assert(decoder@ == old(self).state_of(source));
                }
                let ghost after = decoders@.map_values(|e: (SourceId, MessageDecoder)| (e.0, e.1@));
                proof {
                    assert(after =~= before.remove(i as int));
                    assert forall|j: int, k: int| 0 <= j < k < after.len() implies after[j].0
                        != after[k].0 by {
                        if j >= i {
                            assert(after[j] == before[j + 1]);
                        } else {
                            assert(after[j] == before[j]);
                        }
                        assert(after[k] == before[k + 1] || after[k] == before[k]);
                    }
                    lemma_recalled_at(after, source);
                    assert forall|other: SourceId| other != source implies recalled(after, other)
                        == recalled(before, other) by {
                        lemma_recalled_at(before, other);
                        lemma_recalled_at(after, other);
                        assert forall|j: int| 0 <= j < after.len() && after[j].0 == other implies
                            recalled(before, other) == Some(after[j].1) by {
                            if j >= i {
                                assert(after[j] == before[j + 1]);
                            } else {
                                assert(after[j] == before[j]);
                            }
                        }
                        assert forall|j: int| 0 <= j < before.len() && before[j].0 == other implies
                            recalled(after, other) == Some(before[j].1) by {
                            if j > i {
                                assert(after[j - 1] == before[j]);
                            } else {
                                assert(j != i);
                                assert(after[j] == before[j]);
                            }
                        }
                    }
                }
                decoder.abandon()
            },
            None => {
                proof {
                    assert forall|j: int| 0 <= j < before.len() implies before[j].0 != source by {
                        assert(before[j].0 == decoders@[j].0);
                    }
                }
                let mut fresh = MessageDecoder::new();
                fresh.abandon()
            },
        };
        self.decoders = decoders;
        match outcome {
            None => None,
            Some(outcome) => {
                let (message, raw) = event_parts(outcome);
                Some(self.publish(source, at, message, raw))
            },
        }
    }

    /// Numbers bytes the system itself reported as invalid, as an invalid
    /// message carrying them.
    pub fn reject(&mut self, source: SourceId, at: Arrival, bytes: Vec<u8>, reason: InvalidReason) -> (event:
        MidiEvent)
        ensures
            event.id@ == old(self).next_id(),
            event.arrival == at,
            event.source == source,
            event.message@ == (MessageModel::Invalid { reason, bytes: bytes@ }),
            event.raw@ == bytes@,
            final(self).next_id() == id_after(old(self).next_id(), 1),
            forall|other: SourceId| #[trigger] final(self).state_of(other) == old(self).state_of(other),
    {
        let message = MidiMessage::Invalid { reason, bytes: copy_bytes(bytes.as_slice()) };
        self.publish(source, at, message, bytes)
    }
}

} // verus!
