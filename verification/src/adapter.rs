//! What the platform adapters share that knows no platform: the snapshots
//! they take of the system's ports, how a snapshot becomes a listed source or
//! target, and how a decoding outcome becomes an event's message and bytes.

use crate::decoder::{Decoded, DecodedModel};
use crate::ids::{SourceGroupId, SourceId, SourceKey, SourceKeyModel, TargetId, TargetKey};
use crate::message::{InvalidReason, MessageModel, MidiMessage};
use crate::source::{Availability, Source};
use crate::target::{Target, TargetKind};
use crate::text::copy_bytes;
use vstd::prelude::*;

verus! {

/// One input endpoint as the system reported it, with a stable identifier.
#[derive(Debug, Clone, PartialEq, Eq)]
pub struct EndpointSnapshot {
    /// The system-assigned identifier, stable across replug and reboot.
    pub unique_id: i32,
    /// The system's own display name, used verbatim.
    pub display_name: String,
    /// Whether the system reports the device as currently offline.
    pub offline: bool,
}

impl EndpointSnapshot {
    /// The catalogue entry for this endpoint: keyed on its identifier, listed
    /// under MIDI sources, not yet selected, and absent when offline.
    pub fn to_source(&self, id: SourceId) -> (s: Source)
        ensures
            s.id == id,
            s.key@ == SourceKeyModel::Endpoint(self.unique_id),
            s.name@ == self.display_name@,
            s.group == Some(SourceGroupId::MidiSources),
            !s.selected,
            if self.offline {
                s.availability is Absent
            } else {
                s.availability is Open
            },
    {
        Source {
            id,
            key: SourceKey::Endpoint(self.unique_id),
            name: self.display_name.clone(),
            group: Some(SourceGroupId::MidiSources),
            selected: false,
            availability: if self.offline {
                Availability::Absent
            } else {
                Availability::Open
            },
        }
    }
}

/// One output endpoint as the system reported it.
#[derive(Debug, Clone, PartialEq, Eq)]
pub struct DestinationSnapshot {
    /// The system-assigned identifier, stable across replug and reboot.
    pub unique_id: i32,
    /// The system's own display name, used verbatim.
    pub display_name: String,
}

impl DestinationSnapshot {
    /// The send target for this destination, keyed on its identifier.
    pub fn to_target(&self, id: TargetId) -> (t: Target)
        ensures
            t.id == id,
            t.key@ == crate::ids::TargetKeyModel::Endpoint(self.unique_id),
            t.name@ == self.display_name@,
            t.kind == TargetKind::Destination,
    {
        Target::new(id, TargetKey::Endpoint(self.unique_id), self.display_name.clone(), TargetKind::Destination)
    }
}

/// One input port as a system without stable endpoint identifiers reports it.
#[derive(Debug, Clone, PartialEq, Eq)]
pub struct PortSnapshot {
    /// The port's position in the system's list, valid only until it changes.
    pub device_index: u32,
    /// The port's display name, used verbatim.
    pub display_name: String,
    /// The device-interface string, when the system offers one.
    pub interface_id: Option<String>,
}

impl PortSnapshot {
    /// The identity a selection is saved against: the device-interface string
    /// when there is one, the display name otherwise.
    pub fn key(&self) -> (k: SourceKey)
        ensures
            k@ == match self.interface_id {
                Some(interface) => SourceKeyModel::DeviceInterface(interface@),
                None => SourceKeyModel::PortName(self.display_name@),
            },
    {
        match &self.interface_id {
            Some(interface) => SourceKey::DeviceInterface(interface.clone()),
            None => SourceKey::PortName(self.display_name.clone()),
        }
    }

    /// The catalogue entry for this port, listed under MIDI sources and not
    /// yet selected.
    pub fn to_source(&self, id: SourceId, availability: Availability) -> (s: Source)
        ensures
            s.id == id,
            s.key@ == match self.interface_id {
                Some(interface) => SourceKeyModel::DeviceInterface(interface@),
                None => SourceKeyModel::PortName(self.display_name@),
            },
            s.name@ == self.display_name@,
            s.group == Some(SourceGroupId::MidiSources),
            !s.selected,
            s.availability == availability,
    {
        Source {
            id,
            key: self.key(),
            name: self.display_name.clone(),
            group: Some(SourceGroupId::MidiSources),
            selected: false,
            availability,
        }
    }
}

/// The message and bytes an outcome is delivered as: a message as decoded,
/// bytes that form no message as an invalid message carrying them, a System
/// Exclusive transfer past the ceiling as an oversized one carrying its true
/// length, and one that never ended as truncated data.
pub open spec fn delivered(outcome: DecodedModel) -> (MessageModel, Seq<u8>) {
    match outcome {
        DecodedModel::Message { message, raw } => (message, raw),
        DecodedModel::Invalid { reason, raw } => (MessageModel::Invalid { reason, bytes: raw }, raw),
        DecodedModel::SysexTruncated { raw, true_len } => (
            MessageModel::Invalid {
                reason: InvalidReason::Oversized { true_len: true_len as usize },
                bytes: raw,
            },
            raw,
        ),
        DecodedModel::SysexIncomplete { raw } => (
            MessageModel::Invalid { reason: InvalidReason::TruncatedData, bytes: raw },
            raw,
        ),
    }
}

/// The message and bytes a decoding outcome is delivered as.
pub fn event_parts(outcome: Decoded) -> (parts: (MidiMessage, Vec<u8>))
    ensures
        (parts.0@, parts.1@) == delivered(outcome@),
{
    match outcome {
        Decoded::Message { message, raw } => (message, raw),
        Decoded::Invalid { reason, raw } => (
            MidiMessage::Invalid { reason, bytes: copy_bytes(raw.as_slice()) },
            raw,
        ),
        Decoded::SysexTruncated { raw, true_len } => (
            MidiMessage::Invalid {
                reason: InvalidReason::Oversized { true_len },
                bytes: copy_bytes(raw.as_slice()),
            },
            raw,
        ),
        Decoded::SysexIncomplete { raw } => (
            MidiMessage::Invalid {
                reason: InvalidReason::TruncatedData,
                bytes: copy_bytes(raw.as_slice()),
            },
            raw,
        ),
    }
}

} // verus!
