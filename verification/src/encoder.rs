//! Turning a message back into the bytes that carry it.
//!
//! This is the one place a 1-based display channel becomes a 0-based wire
//! nibble. The send screen's preview is this function's output, and so is what
//! reaches the platform, so the two cannot disagree.

use crate::error::CoreError;
use crate::ids::{lsb7, msb7, ChannelNumber};
use crate::message::{reason_label, MessageModel, MidiMessage};
use crate::text::to_string;
use vstd::prelude::*;

verus! {

/// A channel-voice status byte: the kind nibble with the channel's wire nibble.
pub open spec fn status_byte(base: u8, channel: u8) -> u8 {
    base | ((channel - 1) as u8)
}

/// The bytes that carry a message on the wire, or `None` for an invalid message,
/// which cannot be transmitted. System Exclusive framing is restored around the
/// stored payload.
pub open spec fn encoding(m: MessageModel) -> Option<Seq<u8>> {
    match m {
        MessageModel::NoteOff { channel, note, velocity } => Some(
            seq![status_byte(0x80, channel), note, velocity],
        ),
        MessageModel::NoteOn { channel, note, velocity } => Some(
            seq![status_byte(0x90, channel), note, velocity],
        ),
        MessageModel::AftertouchPoly { channel, note, pressure } => Some(
            seq![status_byte(0xA0, channel), note, pressure],
        ),
        MessageModel::Control { channel, controller, value } => Some(
            seq![status_byte(0xB0, channel), controller, value],
        ),
        MessageModel::Program { channel, program } => Some(
            seq![status_byte(0xC0, channel), program],
        ),
        MessageModel::ChannelPressure { channel, pressure } => Some(
            seq![status_byte(0xD0, channel), pressure],
        ),
        MessageModel::PitchWheel { channel, value } => Some(
            seq![status_byte(0xE0, channel), lsb7(value), msb7(value)],
        ),
        MessageModel::TimeCode { data } => Some(seq![0xF1u8, data]),
        MessageModel::SongPositionPointer { position } => Some(
            seq![0xF2u8, lsb7(position), msb7(position)],
        ),
        MessageModel::SongSelect { song } => Some(seq![0xF3u8, song]),
        MessageModel::TuneRequest => Some(seq![0xF6u8]),
        MessageModel::Clock => Some(seq![0xF8u8]),
        MessageModel::Start => Some(seq![0xFAu8]),
        MessageModel::Stop => Some(seq![0xFCu8]),
        MessageModel::Continue => Some(seq![0xFBu8]),
        MessageModel::ActiveSense => Some(seq![0xFEu8]),
        MessageModel::Reset => Some(seq![0xFFu8]),
        MessageModel::SystemExclusive { payload } => Some(seq![0xF0u8] + payload + seq![0xF7u8]),
        MessageModel::Invalid { .. } => None,
    }
}

/// Encodes a message into the bytes that carry it on the wire.
///
/// Fails with `UnsendableMessage` for an invalid message, carrying its reason's
/// label, and for nothing else.
pub fn encode(message: &MidiMessage) -> (r: Result<Vec<u8>, CoreError>)
    ensures
        match r {
            Ok(bytes) => encoding(message@) == Some(bytes@),
            Err(CoreError::UnsendableMessage { reason: text }) => message@ matches MessageModel::Invalid {
                reason,
                ..
            } && text@ == reason_label(reason),
            Err(_) => false,
        },
        encoding(message@) is None <==> message@ is Invalid,
{
    let mut bytes: Vec<u8> = Vec::new();
    match message {
        MidiMessage::NoteOff { channel, note, velocity } => {
            bytes.push(status(0x80, *channel));
            bytes.push(note.get());
            bytes.push(velocity.get());
        },
        MidiMessage::NoteOn { channel, note, velocity } => {
            bytes.push(status(0x90, *channel));
            bytes.push(note.get());
            bytes.push(velocity.get());
        },
        MidiMessage::AftertouchPoly { channel, note, pressure } => {
            bytes.push(status(0xA0, *channel));
            bytes.push(note.get());
            bytes.push(pressure.get());
        },
        MidiMessage::Control { channel, controller, value } => {
            bytes.push(status(0xB0, *channel));
            bytes.push(controller.get());
            bytes.push(value.get());
        },
        MidiMessage::Program { channel, program } => {
            bytes.push(status(0xC0, *channel));
            bytes.push(program.get());
        },
        MidiMessage::ChannelPressure { channel, pressure } => {
            bytes.push(status(0xD0, *channel));
            bytes.push(pressure.get());
        },
        MidiMessage::PitchWheel { channel, value } => {
            let (least, most) = value.to_wire_pair();
            bytes.push(status(0xE0, *channel));
            bytes.push(least);
            bytes.push(most);
        },
        MidiMessage::TimeCode { data } => {
            bytes.push(0xF1);
            bytes.push(data.get());
        },
        MidiMessage::SongPositionPointer { position } => {
            let (least, most) = position.to_wire_pair();
            bytes.push(0xF2);
            bytes.push(least);
            bytes.push(most);
        },
        MidiMessage::SongSelect { song } => {
            bytes.push(0xF3);
            bytes.push(song.get());
        },
        MidiMessage::TuneRequest => bytes.push(0xF6),
        MidiMessage::Clock => bytes.push(0xF8),
        MidiMessage::Start => bytes.push(0xFA),
        MidiMessage::Stop => bytes.push(0xFC),
        MidiMessage::Continue => bytes.push(0xFB),
        MidiMessage::ActiveSense => bytes.push(0xFE),
        MidiMessage::Reset => bytes.push(0xFF),
        MidiMessage::SystemExclusive { payload } => {
            bytes.push(0xF0);
            let mut i: usize = 0;
            while i < payload.len()
                invariant
                    i <= payload@.len(),
                    bytes@ == seq![0xF0u8] + payload@.take(i as int),
                decreases payload@.len() - i,
            {
                bytes.push(payload[i]);
                i = i + 1;
                assert(bytes@ =~= seq![0xF0u8] + payload@.take(i as int));
            }
            bytes.push(0xF7);
            assert(payload@.take(i as int) =~= payload@);
        },
        MidiMessage::Invalid { reason, .. } => {
            return Err(CoreError::UnsendableMessage { reason: to_string(reason.label()) });
        },
    }
    assert(encoding(message@) == Some(bytes@));
    Ok(bytes)
}

/// Combines a status byte with a channel, converting 1-based to 0-based.
fn status(base: u8, channel: ChannelNumber) -> (b: u8)
    ensures
        b == status_byte(base, channel@),
{
    base | channel.to_wire_nibble()
}

} // verus!
