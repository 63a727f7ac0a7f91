//! One observed MIDI event.

use crate::ids::{Arrival, ChannelNumber, EventId, SourceId};
use crate::message::MidiMessage;
use crate::text::{compact_hex, compact_hex_string, copy_bytes};
use vstd::prelude::*;

verus! {

/// A single message as observed from a source, at a moment in time.
///
/// The raw bytes are stored alongside the interpretation because they cannot be
/// derived from it: under running status the wire carries no status byte, and a
/// `Note On` with velocity zero is interpreted as a release. The bytes that
/// arrived are the authority for the raw view and for the prefix filter.
#[derive(Debug, Clone, PartialEq, Eq)]
pub struct MidiEvent {
    /// Arrival order and identity.
    pub id: EventId,
    /// When the event arrived, on both clocks.
    pub arrival: Arrival,
    /// Which source produced it.
    pub source: SourceId,
    /// The interpretation.
    pub message: MidiMessage,
    /// The bytes exactly as they arrived.
    pub raw: Vec<u8>,
}

impl MidiEvent {
    /// Assembles an event from an interpretation and the bytes it came from.
    pub fn new(
        id: EventId,
        arrival: Arrival,
        source: SourceId,
        message: MidiMessage,
        raw: Vec<u8>,
    ) -> (e: Self)
        ensures
            e == (MidiEvent { id, arrival, source, message, raw }),
    {
        Self { id, arrival, source, message, raw }
    }

    /// The channel for the Chan column, or `None` when the message carries none.
    pub fn channel(&self) -> (c: Option<ChannelNumber>)
        ensures
            match c {
                Some(ch) => self.message@.channel() == Some(ch@),
                None => self.message@.channel() is None,
            },
    {
        self.message.channel()
    }

    /// The uppercase, separator-free hex string the prefix filter matches against,
    /// formatted from the received bytes.
    pub fn raw_hex(&self) -> (s: String)
        ensures
            s@ == compact_hex(self.raw@),
    {
        compact_hex_string(self.raw.as_slice())
    }

    /// A copy of this event.
    pub fn duplicate(&self) -> (e: Self)
        ensures
            e.id == self.id,
            e.arrival == self.arrival,
            e.source == self.source,
            e.message@ == self.message@,
            e.raw@ == self.raw@,
    {
        MidiEvent {
            id: self.id,
            arrival: self.arrival,
            source: self.source,
            message: self.message.duplicate(),
            raw: copy_bytes(self.raw.as_slice()),
        }
    }
}

} // verus!
