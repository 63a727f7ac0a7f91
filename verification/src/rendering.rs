//! Turning an observed event into the strings the table shows.
//!
//! The message module models what a message is; this models how it is
//! written, under the display settings. Each value in the Data cell is governed
//! by the one setting that names it: note numbers by the note format,
//! controller numbers by the controller format, programs by the program
//! numbering, and everything else by the data format. Expert mode replaces the
//! whole cell with the bytes that arrived.

use crate::controller;
use crate::controller::controller_name;
use crate::display::{
    displayed_program, written, ControllerFormat, DisplaySettings, ExpertMode, NoteFormat,
    TimeFormat,
};
use crate::event::MidiEvent;
use crate::ids::{clock_display, HostTime, TickRate};
use crate::message::{reason_label, reported_len, InvalidReason, MessageModel, MidiMessage};
use crate::text::{
    compact_hex, decimal, decimal_string, hexadecimal, hexadecimal_string, padded_decimal,
    push_decimal, push_padded_decimal, signed_decimal, signed_decimal_string, to_string,
};
use vstd::prelude::*;

verus! {

/// Semitones per octave: the divisor turning a note number into an octave.
const SEMITONES_PER_OCTAVE: u8 = 12;

/// Octave offset placing middle C (note 60) at `C3`.
const OCTAVE_OFFSET_MIDDLE_C3: i16 = 2;

/// Octave offset placing middle C (note 60) at `C4`.
const OCTAVE_OFFSET_MIDDLE_C4: i16 = 1;

/// Nanoseconds in one second.
const NANOS_PER_SECOND: u128 = 1_000_000_000;

/// How many fractional digits `Host time (seconds)` shows: nine, so the seconds
/// form is the nanosecond form with the point moved.
const HOST_SECONDS_PRECISION: usize = 9;

/// The pitch class names, sharp-spelled.
pub const NOTE_NAMES: [&'static str; 12] = [
    "C",
    "C#",
    "D",
    "D#",
    "E",
    "F",
    "F#",
    "G",
    "G#",
    "A",
    "A#",
    "B",
];

/// Status nibble of a `Note On`.
const STATUS_NOTE_ON: u8 = 0x90;

/// Mask isolating the kind nibble of a channel-voice status byte.
const STATUS_MASK: u8 = 0xF0;

/// The host-clock reading to display: a source's zero stamp means "now" and
/// shows the moment of receipt, unless expert mode asks for the zero itself.
pub open spec fn host_reading(host: HostTime, expert: ExpertMode) -> u64 {
    match host {
        HostTime::Stamped(ticks) => ticks@,
        HostTime::ZeroMeaningNow { received } => match expert {
            ExpertMode::On => 0,
            ExpertMode::Off => received@,
        },
    }
}

/// A tick count in nanoseconds at a rate of ticks per second, rounded down.
pub open spec fn nanos_of(ticks: u64, rate: u64) -> nat {
    (ticks as nat * 1_000_000_000) / (rate as nat)
}

/// A nanosecond count as seconds with nine fractional digits.
pub open spec fn seconds_text(nanos: nat) -> Seq<char> {
    decimal(nanos / 1_000_000_000) + "."@ + padded_decimal(nanos % 1_000_000_000, 9)
}

/// The Time column's contents.
pub open spec fn time_text(event: MidiEvent, settings: DisplaySettings, rate: u64) -> Seq<char> {
    let ticks = host_reading(event.arrival.host, settings.expert);
    match settings.time {
        TimeFormat::ClockTime => clock_display(event.arrival.wall@ as nat),
        TimeFormat::HostInteger => decimal(ticks as nat),
        TimeFormat::HostSeconds => seconds_text(nanos_of(ticks, rate)),
        TimeFormat::HostNanoseconds => decimal(nanos_of(ticks, rate)),
    }
}

/// Whether an event was read as a release but arrived with a Note On status.
pub open spec fn arrived_as_note_on_spec(event: MidiEvent) -> bool {
    &&& event.message@ is NoteOff
    &&& event.raw@.len() > 0
    &&& event.raw@[0] & 0xF0 == 0x90
}

/// The Message column's contents: in expert mode a release that arrived as a
/// Note On is shown as the Note On it was.
pub open spec fn message_text(event: MidiEvent, settings: DisplaySettings) -> Seq<char> {
    if settings.expert == ExpertMode::On && arrived_as_note_on_spec(event) {
        "Note On"@
    } else {
        event.message@.display_name()
    }
}

/// A note number as a sharp-spelled name and an octave, the octave counted so
/// that note 0 sits `offset` octaves below zero.
pub open spec fn note_name_text(note: u8, offset: int) -> Seq<char> {
    NOTE_NAMES@[(note % 12) as int]@ + signed_decimal(note / 12 - offset)
}

/// A note number written per the note format.
pub open spec fn note_text(note: u8, settings: DisplaySettings) -> Seq<char> {
    match settings.note {
        NoteFormat::NameMiddleC3 => note_name_text(note, 2),
        NoteFormat::NameMiddleC4 => note_name_text(note, 1),
        NoteFormat::Decimal => decimal(note as nat),
        NoteFormat::Hexadecimal => hexadecimal(note as nat),
    }
}

/// A controller number written per the controller format; a controller with
/// no name shows its number.
pub open spec fn controller_text(number: u8, settings: DisplaySettings) -> Seq<char> {
    match settings.controller {
        ControllerFormat::StandardName => match controller_name(number) {
            Some(name) => name,
            None => decimal(number as nat),
        },
        ControllerFormat::Decimal => decimal(number as nat),
        ControllerFormat::Hexadecimal => hexadecimal(number as nat),
    }
}

/// The Data column's contents as an interpretation of the message.
pub open spec fn decoded_text(m: MessageModel, settings: DisplaySettings) -> Seq<char> {
    let data = settings.data;
    match m {
        MessageModel::NoteOn { note, velocity, .. } | MessageModel::NoteOff { note, velocity, .. } =>
            note_text(note, settings) + " "@ + written(data, velocity as nat),
        MessageModel::AftertouchPoly { note, pressure, .. } => note_text(note, settings) + " "@
            + written(data, pressure as nat),
        MessageModel::Control { controller, value, .. } => controller_text(controller, settings)
            + " "@ + written(data, value as nat),
        MessageModel::Program { program, .. } => decimal(
            displayed_program(settings.program, program) as nat,
        ),
        MessageModel::ChannelPressure { pressure, .. } => written(data, pressure as nat),
        MessageModel::PitchWheel { value, .. } => written(data, value as nat),
        MessageModel::TimeCode { data: nibbles } => written(data, nibbles as nat),
        MessageModel::SongPositionPointer { position } => written(data, position as nat),
        MessageModel::SongSelect { song } => written(data, song as nat),
        MessageModel::TuneRequest | MessageModel::Clock | MessageModel::Start | MessageModel::Stop
        | MessageModel::Continue | MessageModel::ActiveSense | MessageModel::Reset => Seq::empty(),
        MessageModel::SystemExclusive { payload } => decimal(payload.len() + 2) + " bytes"@,
        MessageModel::Invalid { reason, bytes } => reason_label(reason) + " ("@ + decimal(
            reported_len(reason, bytes),
        ) + " bytes)"@,
    }
}

/// The Data column's contents: the interpretation, or in expert mode the bytes
/// that arrived, exactly as the row's raw view shows them.
pub open spec fn data_text(event: MidiEvent, settings: DisplaySettings) -> Seq<char> {
    match settings.expert {
        ExpertMode::On => compact_hex(event.raw@),
        ExpertMode::Off => decoded_text(event.message@, settings),
    }
}

/// The Time column's contents. The tick rate is a parameter because it is
/// fixed for the life of the process.
pub fn time_display(event: &MidiEvent, settings: DisplaySettings, rate: TickRate) -> (s: String)
    ensures
        s@ == time_text(*event, settings, rate@),
{
    let ticks = host_ticks(event, settings.expert);
    match settings.time {
        TimeFormat::ClockTime => event.arrival.wall.to_display(),
        TimeFormat::HostInteger => decimal_string(ticks as u128),
        TimeFormat::HostSeconds => {
            let nanos = rate.to_nanoseconds(ticks);
            let whole = nanos / NANOS_PER_SECOND;
            let fraction = nanos % NANOS_PER_SECOND;
            let mut s = String::new();
            push_decimal(&mut s, whole);
            s.append(".");
            push_padded_decimal(&mut s, fraction, HOST_SECONDS_PRECISION);
            assert(s@ =~= seconds_text(nanos_of(ticks, rate@)));
            s
        },
        TimeFormat::HostNanoseconds => decimal_string(rate.to_nanoseconds(ticks)),
    }
}

/// The host-clock reading to display, honouring the zero-timestamp convention.
fn host_ticks(event: &MidiEvent, expert: ExpertMode) -> (ticks: u64)
    ensures
        ticks == host_reading(event.arrival.host, expert),
{
    match (event.arrival.host, expert) {
        (HostTime::Stamped(ticks), _) => ticks.get(),
        (HostTime::ZeroMeaningNow { .. }, ExpertMode::On) => 0,
        (HostTime::ZeroMeaningNow { received }, ExpertMode::Off) => received.get(),
    }
}

/// The Message column's contents. Expert mode reads the retained bytes rather
/// than changing the decoder, so a display setting never changes which events
/// pass a filter.
pub fn message_display(event: &MidiEvent, settings: DisplaySettings) -> (s: &'static str)
    ensures
        s@ == message_text(*event, settings),
{
    match settings.expert {
        ExpertMode::Off => event.message.display_name(),
        ExpertMode::On => if arrived_as_note_on(event) {
            "Note On"
        } else {
            event.message.display_name()
        },
    }
}

/// Whether this event was decoded as a release but arrived as a `Note On`.
fn arrived_as_note_on(event: &MidiEvent) -> (b: bool)
    ensures
        b == arrived_as_note_on_spec(*event),
{
    match event.message {
        MidiMessage::NoteOff { .. } => event.raw.len() > 0 && event.raw[0] & STATUS_MASK
            == STATUS_NOTE_ON,
        _ => false,
    }
}

/// The Data column's contents.
pub fn data_display(event: &MidiEvent, settings: DisplaySettings) -> (s: String)
    ensures
        s@ == data_text(*event, settings),
{
    match settings.expert {
        ExpertMode::On => event.raw_hex(),
        ExpertMode::Off => decoded_display(event, settings),
    }
}

/// Two values separated by a space.
fn spaced_pair(first: String, second: String) -> (s: String)
    ensures
        s@ == first@ + " "@ + second@,
{
    let mut s = first;
    s.append(" ");
    s.append(second.as_str());
    s
}

/// The Data column's contents as an interpretation of the message.
fn decoded_display(event: &MidiEvent, settings: DisplaySettings) -> (s: String)
    ensures
        s@ == decoded_text(event.message@, settings),
{
    let data = settings.data;
    match &event.message {
        MidiMessage::NoteOn { note, velocity, .. } | MidiMessage::NoteOff { note, velocity, .. } =>
            spaced_pair(
            note_display(note.get(), settings),
            data.write(velocity.get() as u16),
        ),
        MidiMessage::AftertouchPoly { note, pressure, .. } => spaced_pair(
            note_display(note.get(), settings),
            data.write(pressure.get() as u16),
        ),
        MidiMessage::Control { controller, value, .. } => spaced_pair(
            controller_display(controller.get(), settings),
            data.write(value.get() as u16),
        ),
        MidiMessage::Program { program, .. } => decimal_string(
            settings.program.displayed(program.get()) as u128,
        ),
        MidiMessage::ChannelPressure { pressure, .. } => data.write(pressure.get() as u16),
        MidiMessage::PitchWheel { value, .. } => data.write(value.get()),
        MidiMessage::TimeCode { data: nibbles } => data.write(nibbles.get() as u16),
        MidiMessage::SongPositionPointer { position } => data.write(position.get()),
        MidiMessage::SongSelect { song } => data.write(song.get() as u16),
        MidiMessage::TuneRequest | MidiMessage::Clock | MidiMessage::Start | MidiMessage::Stop
        | MidiMessage::Continue | MidiMessage::ActiveSense | MidiMessage::Reset => String::new(),
        MidiMessage::SystemExclusive { payload } => {
            let total = payload.len() as u128 + 2;
            let mut s = decimal_string(total);
            s.append(" bytes");
            s
        },
        MidiMessage::Invalid { reason, bytes } => {
            let mut s = to_string(reason.label());
            s.append(" (");
            let count = match reason {
                InvalidReason::Oversized { true_len } => *true_len,
                _ => bytes.len(),
            };
            push_decimal(&mut s, count as u128);
            s.append(" bytes)");
            s
        },
    }
}

/// Renders one note number per the chosen format.
pub fn note_display(note: u8, settings: DisplaySettings) -> (s: String)
    ensures
        s@ == note_text(note, settings),
{
    match settings.note {
        NoteFormat::NameMiddleC3 => note_name(note, OCTAVE_OFFSET_MIDDLE_C3),
        NoteFormat::NameMiddleC4 => note_name(note, OCTAVE_OFFSET_MIDDLE_C4),
        NoteFormat::Decimal => decimal_string(note as u128),
        NoteFormat::Hexadecimal => hexadecimal_string(note as u128),
    }
}

/// Renders a note number as a name and octave, such as `C2`; the octave runs
/// negative at the bottom, so note 0 is `C-2` when middle C is `C3`.
fn note_name(note: u8, octave_offset: i16) -> (s: String)
    requires
        0 <= octave_offset <= 2,
    ensures
        s@ == note_name_text(note, octave_offset as int),
{
    let names = NOTE_NAMES;
    assert(names@ == NOTE_NAMES@);
    let name = names[(note % SEMITONES_PER_OCTAVE) as usize];
    let octave = (note / SEMITONES_PER_OCTAVE) as i16 - octave_offset;
    let mut s = to_string(name);
    let digits = signed_decimal_string(octave as i64);
    s.append(digits.as_str());
    s
}

/// Renders one controller number per the chosen format; under standard names a
/// controller with no assigned name falls back to its number.
pub fn controller_display(number: u8, settings: DisplaySettings) -> (s: String)
    ensures
        s@ == controller_text(number, settings),
{
    match settings.controller {
        ControllerFormat::StandardName => match controller::name(number) {
            Some(name) => to_string(name),
            None => decimal_string(number as u128),
        },
        ControllerFormat::Decimal => decimal_string(number as u128),
        ControllerFormat::Hexadecimal => hexadecimal_string(number as u128),
    }
}

} // verus!
