//! The MIDI message model: what a message is and what it is called.

use crate::ids::{ChannelNumber, Data14, DataByte};
use crate::text::copy_bytes;
use vstd::prelude::*;

verus! {

/// The parent groupings of the Filter panel's three columns.
#[derive(Debug, Clone, Copy, PartialEq, Eq, Structural, Hash)]
pub enum MessageCategory {
    /// First column: channel-bearing performance messages.
    VoiceMessages,
    /// Second column: system messages that are not real-time.
    SystemCommon,
    /// Third column: the high-rate clock and transport messages.
    RealTime,
}

/// A category's heading, as the Filter panel shows it.
pub open spec fn category_label(c: MessageCategory) -> Seq<char> {
    match c {
        MessageCategory::VoiceMessages => "Voice Messages"@,
        MessageCategory::SystemCommon => "System Common"@,
        MessageCategory::RealTime => "Real Time"@,
    }
}

/// Every category, in left-to-right order.
pub open spec fn all_categories() -> Seq<MessageCategory> {
    seq![MessageCategory::VoiceMessages, MessageCategory::SystemCommon, MessageCategory::RealTime]
}

impl MessageCategory {
    /// Every category, in left-to-right order.
    pub const ALL: [MessageCategory; 3] = [
        MessageCategory::VoiceMessages,
        MessageCategory::SystemCommon,
        MessageCategory::RealTime,
    ];

    /// The category heading.
    pub fn label(self) -> (s: &'static str)
        ensures
            s@ == category_label(self),
    {
        match self {
            MessageCategory::VoiceMessages => "Voice Messages",
            MessageCategory::SystemCommon => "System Common",
            MessageCategory::RealTime => "Real Time",
        }
    }
}

/// One filter checkbox: the unit the user actually toggles.
#[derive(Debug, Clone, Copy, PartialEq, Eq, Structural, Hash)]
pub enum MessageKind {
    NoteOnOff,
    AftertouchPoly,
    Control,
    Program,
    ChannelPressure,
    PitchWheel,
    TimeCode,
    SongPositionPointer,
    SongSelect,
    TuneRequest,
    Clock,
    StartStopContinue,
    ActiveSense,
    Reset,
    SystemExclusive,
    Invalid,
}

/// A checkbox's label, as the Filter panel shows it.
pub open spec fn kind_label(k: MessageKind) -> Seq<char> {
    match k {
        MessageKind::NoteOnOff => "Note On/Off"@,
        MessageKind::AftertouchPoly => "Aftertouch (Poly)"@,
        MessageKind::Control => "Control"@,
        MessageKind::Program => "Program"@,
        MessageKind::ChannelPressure => "Channel Pressure"@,
        MessageKind::PitchWheel => "Pitch Wheel"@,
        MessageKind::TimeCode => "Time Code"@,
        MessageKind::SongPositionPointer => "Song Position Pointer"@,
        MessageKind::SongSelect => "Song Select"@,
        MessageKind::TuneRequest => "Tune Request"@,
        MessageKind::Clock => "Clock"@,
        MessageKind::StartStopContinue => "Start/Stop/Continue"@,
        MessageKind::ActiveSense => "Active Sense"@,
        MessageKind::Reset => "Reset"@,
        MessageKind::SystemExclusive => "System Exclusive"@,
        MessageKind::Invalid => "Invalid"@,
    }
}

/// A checkbox's stable identifier for the IPC boundary.
pub open spec fn kind_id(k: MessageKind) -> Seq<char> {
    match k {
        MessageKind::NoteOnOff => "noteOnOff"@,
        MessageKind::AftertouchPoly => "aftertouchPoly"@,
        MessageKind::Control => "control"@,
        MessageKind::Program => "program"@,
        MessageKind::ChannelPressure => "channelPressure"@,
        MessageKind::PitchWheel => "pitchWheel"@,
        MessageKind::TimeCode => "timeCode"@,
        MessageKind::SongPositionPointer => "songPositionPointer"@,
        MessageKind::SongSelect => "songSelect"@,
        MessageKind::TuneRequest => "tuneRequest"@,
        MessageKind::Clock => "clock"@,
        MessageKind::StartStopContinue => "startStopContinue"@,
        MessageKind::ActiveSense => "activeSense"@,
        MessageKind::Reset => "reset"@,
        MessageKind::SystemExclusive => "systemExclusive"@,
        MessageKind::Invalid => "invalid"@,
    }
}

/// The Filter column a checkbox sits in, or none for the standalone entries.
pub open spec fn kind_category(k: MessageKind) -> Option<MessageCategory> {
    match k {
        MessageKind::NoteOnOff | MessageKind::AftertouchPoly | MessageKind::Control
        | MessageKind::Program | MessageKind::ChannelPressure | MessageKind::PitchWheel => Some(
            MessageCategory::VoiceMessages,
        ),
        MessageKind::TimeCode | MessageKind::SongPositionPointer | MessageKind::SongSelect
        | MessageKind::TuneRequest => Some(MessageCategory::SystemCommon),
        MessageKind::Clock | MessageKind::StartStopContinue | MessageKind::ActiveSense
        | MessageKind::Reset => Some(MessageCategory::RealTime),
        MessageKind::SystemExclusive | MessageKind::Invalid => None,
    }
}

impl MessageKind {
    /// Every kind, column by column in the order the Filter panel lists them.
    pub const ALL: [MessageKind; 16] = [
        MessageKind::NoteOnOff,
        MessageKind::AftertouchPoly,
        MessageKind::Control,
        MessageKind::Program,
        MessageKind::ChannelPressure,
        MessageKind::PitchWheel,
        MessageKind::TimeCode,
        MessageKind::SongPositionPointer,
        MessageKind::SongSelect,
        MessageKind::TuneRequest,
        MessageKind::Clock,
        MessageKind::StartStopContinue,
        MessageKind::ActiveSense,
        MessageKind::Reset,
        MessageKind::SystemExclusive,
        MessageKind::Invalid,
    ];

    /// The checkbox label.
    pub fn label(self) -> (s: &'static str)
        ensures
            s@ == kind_label(self),
    {
        match self {
            MessageKind::NoteOnOff => "Note On/Off",
            MessageKind::AftertouchPoly => "Aftertouch (Poly)",
            MessageKind::Control => "Control",
            MessageKind::Program => "Program",
            MessageKind::ChannelPressure => "Channel Pressure",
            MessageKind::PitchWheel => "Pitch Wheel",
            MessageKind::TimeCode => "Time Code",
            MessageKind::SongPositionPointer => "Song Position Pointer",
            MessageKind::SongSelect => "Song Select",
            MessageKind::TuneRequest => "Tune Request",
            MessageKind::Clock => "Clock",
            MessageKind::StartStopContinue => "Start/Stop/Continue",
            MessageKind::ActiveSense => "Active Sense",
            MessageKind::Reset => "Reset",
            MessageKind::SystemExclusive => "System Exclusive",
            MessageKind::Invalid => "Invalid",
        }
    }

    /// The column this checkbox sits in, or `None` for the standalone entries.
    pub fn category(self) -> (c: Option<MessageCategory>)
        ensures
            c == kind_category(self),
    {
        match self {
            MessageKind::NoteOnOff | MessageKind::AftertouchPoly | MessageKind::Control
            | MessageKind::Program | MessageKind::ChannelPressure | MessageKind::PitchWheel => Some(
                MessageCategory::VoiceMessages,
            ),
            MessageKind::TimeCode | MessageKind::SongPositionPointer | MessageKind::SongSelect
            | MessageKind::TuneRequest => Some(MessageCategory::SystemCommon),
            MessageKind::Clock | MessageKind::StartStopContinue | MessageKind::ActiveSense
            | MessageKind::Reset => Some(MessageCategory::RealTime),
            MessageKind::SystemExclusive | MessageKind::Invalid => None,
        }
    }

    /// A stable identifier for crossing the IPC boundary.
    pub fn id(self) -> (s: &'static str)
        ensures
            s@ == kind_id(self),
    {
        match self {
            MessageKind::NoteOnOff => "noteOnOff",
            MessageKind::AftertouchPoly => "aftertouchPoly",
            MessageKind::Control => "control",
            MessageKind::Program => "program",
            MessageKind::ChannelPressure => "channelPressure",
            MessageKind::PitchWheel => "pitchWheel",
            MessageKind::TimeCode => "timeCode",
            MessageKind::SongPositionPointer => "songPositionPointer",
            MessageKind::SongSelect => "songSelect",
            MessageKind::TuneRequest => "tuneRequest",
            MessageKind::Clock => "clock",
            MessageKind::StartStopContinue => "startStopContinue",
            MessageKind::ActiveSense => "activeSense",
            MessageKind::Reset => "reset",
            MessageKind::SystemExclusive => "systemExclusive",
            MessageKind::Invalid => "invalid",
        }
    }
}

/// Why a message was classified as invalid.
#[derive(Debug, Clone, Copy, PartialEq, Eq, Structural, Hash)]
pub enum InvalidReason {
    /// A status byte that no MIDI status corresponds to.
    UnknownStatus,
    /// A recognised status whose data bytes were cut short.
    TruncatedData,
    /// The operating system itself reported these bytes as not forming a message.
    ReportedInvalid,
    /// The system reported invalid input but not how much of it was meaningful.
    ExtentUnknown,
    /// A System Exclusive transfer longer than the ceiling: only its first bytes
    /// were kept, and `true_len` is how long it really was.
    Oversized { true_len: usize },
}

/// How many bytes an invalid message is reported as: the true length of an
/// oversized transfer, the bytes kept otherwise.
pub open spec fn reported_len(reason: InvalidReason, bytes: Seq<u8>) -> nat {
    match reason {
        InvalidReason::Oversized { true_len } => true_len as nat,
        _ => bytes.len(),
    }
}

/// The explanation the Data column shows for an invalid message.
pub open spec fn reason_label(r: InvalidReason) -> Seq<char> {
    match r {
        InvalidReason::UnknownStatus => "unknown status"@,
        InvalidReason::TruncatedData => "truncated"@,
        InvalidReason::ReportedInvalid => "reported invalid by the system"@,
        InvalidReason::ExtentUnknown => "reported invalid by the system, length not determinable"@,
        InvalidReason::Oversized { .. } => "truncated"@,
    }
}

impl InvalidReason {
    /// A short explanation for the Data column.
    pub fn label(self) -> (s: &'static str)
        ensures
            s@ == reason_label(self),
    {
        match self {
            InvalidReason::UnknownStatus => "unknown status",
            InvalidReason::TruncatedData => "truncated",
            InvalidReason::ReportedInvalid => "reported invalid by the system",
            InvalidReason::ExtentUnknown => "reported invalid by the system, length not determinable",
            InvalidReason::Oversized { .. } => "truncated",
        }
    }
}

/// A message as a value: every field as the number or bytes it carries.
pub enum MessageModel {
    NoteOn { channel: u8, note: u8, velocity: u8 },
    NoteOff { channel: u8, note: u8, velocity: u8 },
    AftertouchPoly { channel: u8, note: u8, pressure: u8 },
    Control { channel: u8, controller: u8, value: u8 },
    Program { channel: u8, program: u8 },
    ChannelPressure { channel: u8, pressure: u8 },
    PitchWheel { channel: u8, value: u16 },
    TimeCode { data: u8 },
    SongPositionPointer { position: u16 },
    SongSelect { song: u8 },
    TuneRequest,
    Clock,
    Start,
    Stop,
    Continue,
    ActiveSense,
    Reset,
    SystemExclusive { payload: Seq<u8> },
    Invalid { reason: InvalidReason, bytes: Seq<u8> },
}

/// A channel number as the user sees it.
pub open spec fn valid_channel(c: u8) -> bool {
    1 <= c <= 16
}

impl MessageModel {
    /// Every field within the range its type allows: channels 1-16, data values
    /// 0-127, fourteen-bit values 0-16383. Every message value the crate holds
    /// satisfies this.
    pub open spec fn wf(self) -> bool {
        match self {
            MessageModel::NoteOn { channel, note, velocity }
            | MessageModel::NoteOff { channel, note, velocity } => valid_channel(channel) && note
                <= 127 && velocity <= 127,
            MessageModel::AftertouchPoly { channel, note, pressure } => valid_channel(channel)
                && note <= 127 && pressure <= 127,
            MessageModel::Control { channel, controller, value } => valid_channel(channel)
                && controller <= 127 && value <= 127,
            MessageModel::Program { channel, program } => valid_channel(channel) && program <= 127,
            MessageModel::ChannelPressure { channel, pressure } => valid_channel(channel)
                && pressure <= 127,
            MessageModel::PitchWheel { channel, value } => valid_channel(channel) && value <= 16383,
            MessageModel::TimeCode { data } => data <= 127,
            MessageModel::SongPositionPointer { position } => position <= 16383,
            MessageModel::SongSelect { song } => song <= 127,
            _ => true,
        }
    }

    /// Which filter checkbox governs this message.
    pub open spec fn kind(self) -> MessageKind {
        match self {
            MessageModel::NoteOn { .. } | MessageModel::NoteOff { .. } => MessageKind::NoteOnOff,
            MessageModel::AftertouchPoly { .. } => MessageKind::AftertouchPoly,
            MessageModel::Control { .. } => MessageKind::Control,
            MessageModel::Program { .. } => MessageKind::Program,
            MessageModel::ChannelPressure { .. } => MessageKind::ChannelPressure,
            MessageModel::PitchWheel { .. } => MessageKind::PitchWheel,
            MessageModel::TimeCode { .. } => MessageKind::TimeCode,
            MessageModel::SongPositionPointer { .. } => MessageKind::SongPositionPointer,
            MessageModel::SongSelect { .. } => MessageKind::SongSelect,
            MessageModel::TuneRequest => MessageKind::TuneRequest,
            MessageModel::Clock => MessageKind::Clock,
            MessageModel::Start | MessageModel::Stop | MessageModel::Continue => MessageKind::StartStopContinue,
            MessageModel::ActiveSense => MessageKind::ActiveSense,
            MessageModel::Reset => MessageKind::Reset,
            MessageModel::SystemExclusive { .. } => MessageKind::SystemExclusive,
            MessageModel::Invalid { .. } => MessageKind::Invalid,
        }
    }

    /// The channel this message carries, if it carries one.
    pub open spec fn channel(self) -> Option<u8> {
        match self {
            MessageModel::NoteOn { channel, .. } | MessageModel::NoteOff { channel, .. }
            | MessageModel::AftertouchPoly { channel, .. } | MessageModel::Control { channel, .. }
            | MessageModel::Program { channel, .. } | MessageModel::ChannelPressure { channel, .. }
            | MessageModel::PitchWheel { channel, .. } => Some(channel),
            _ => None,
        }
    }

    /// The name shown in the Message column.
    pub open spec fn display_name(self) -> Seq<char> {
        match self {
            MessageModel::NoteOn { .. } => "Note On"@,
            MessageModel::NoteOff { .. } => "Note Off"@,
            MessageModel::AftertouchPoly { .. } => "Aftertouch (Poly)"@,
            MessageModel::Control { .. } => "Control"@,
            MessageModel::Program { .. } => "Program"@,
            MessageModel::ChannelPressure { .. } => "Channel Pressure"@,
            MessageModel::PitchWheel { .. } => "Pitch Wheel"@,
            MessageModel::TimeCode { .. } => "Time Code"@,
            MessageModel::SongPositionPointer { .. } => "Song Position Pointer"@,
            MessageModel::SongSelect { .. } => "Song Select"@,
            MessageModel::TuneRequest => "Tune Request"@,
            MessageModel::Clock => "Clock"@,
            MessageModel::Start => "Start"@,
            MessageModel::Stop => "Stop"@,
            MessageModel::Continue => "Continue"@,
            MessageModel::ActiveSense => "Active Sense"@,
            MessageModel::Reset => "Reset"@,
            MessageModel::SystemExclusive { .. } => "System Exclusive"@,
            MessageModel::Invalid { .. } => "Invalid"@,
        }
    }
}

/// One MIDI message, modelled as the monitor needs to see it.
#[derive(Debug, Clone, PartialEq, Eq)]
pub enum MidiMessage {
    NoteOn { channel: ChannelNumber, note: DataByte, velocity: DataByte },
    NoteOff { channel: ChannelNumber, note: DataByte, velocity: DataByte },
    AftertouchPoly { channel: ChannelNumber, note: DataByte, pressure: DataByte },
    Control { channel: ChannelNumber, controller: DataByte, value: DataByte },
    Program { channel: ChannelNumber, program: DataByte },
    ChannelPressure { channel: ChannelNumber, pressure: DataByte },
    PitchWheel { channel: ChannelNumber, value: Data14 },
    TimeCode { data: DataByte },
    SongPositionPointer { position: Data14 },
    SongSelect { song: DataByte },
    TuneRequest,
    Clock,
    Start,
    Stop,
    Continue,
    ActiveSense,
    Reset,
    /// Payload between the `F0` and `F7` framing bytes.
    SystemExclusive { payload: Vec<u8> },
    /// Data that could not be interpreted as a valid message, as received.
    Invalid { reason: InvalidReason, bytes: Vec<u8> },
}

impl MidiMessage {
    /// The message as a value.
    pub open spec fn view(&self) -> MessageModel {
        match self {
            MidiMessage::NoteOn { channel, note, velocity } => MessageModel::NoteOn {
                channel: channel@,
                note: note@,
                velocity: velocity@,
            },
            MidiMessage::NoteOff { channel, note, velocity } => MessageModel::NoteOff {
                channel: channel@,
                note: note@,
                velocity: velocity@,
            },
            MidiMessage::AftertouchPoly { channel, note, pressure } => MessageModel::AftertouchPoly {
                channel: channel@,
                note: note@,
                pressure: pressure@,
            },
            MidiMessage::Control { channel, controller, value } => MessageModel::Control {
                channel: channel@,
                controller: controller@,
                value: value@,
            },
            MidiMessage::Program { channel, program } => MessageModel::Program {
                channel: channel@,
                program: program@,
            },
            MidiMessage::ChannelPressure { channel, pressure } => MessageModel::ChannelPressure {
                channel: channel@,
                pressure: pressure@,
            },
            MidiMessage::PitchWheel { channel, value } => MessageModel::PitchWheel {
                channel: channel@,
                value: value@,
            },
            MidiMessage::TimeCode { data } => MessageModel::TimeCode { data: data@ },
            MidiMessage::SongPositionPointer { position } => MessageModel::SongPositionPointer {
                position: position@,
            },
            MidiMessage::SongSelect { song } => MessageModel::SongSelect { song: song@ },
            MidiMessage::TuneRequest => MessageModel::TuneRequest,
            MidiMessage::Clock => MessageModel::Clock,
            MidiMessage::Start => MessageModel::Start,
            MidiMessage::Stop => MessageModel::Stop,
            MidiMessage::Continue => MessageModel::Continue,
            MidiMessage::ActiveSense => MessageModel::ActiveSense,
            MidiMessage::Reset => MessageModel::Reset,
            MidiMessage::SystemExclusive { payload } => MessageModel::SystemExclusive {
                payload: payload@,
            },
            MidiMessage::Invalid { reason, bytes } => MessageModel::Invalid {
                reason: *reason,
                bytes: bytes@,
            },
        }
    }

    /// Every field is within its type's range: true of every message value.
    pub(crate) fn check_fields_in_range(&self)
        ensures
            self@.wf(),
    {
        match self {
            MidiMessage::NoteOn { channel, note, velocity }
            | MidiMessage::NoteOff { channel, note, velocity } => {
                channel.get();
                note.get();
                velocity.get();
            },
            MidiMessage::AftertouchPoly { channel, note, pressure } => {
                channel.get();
                note.get();
                pressure.get();
            },
            MidiMessage::Control { channel, controller, value } => {
                channel.get();
                controller.get();
                value.get();
            },
            MidiMessage::Program { channel, program } => {
                channel.get();
                program.get();
            },
            MidiMessage::ChannelPressure { channel, pressure } => {
                channel.get();
                pressure.get();
            },
            MidiMessage::PitchWheel { channel, value } => {
                channel.get();
                value.get();
            },
            MidiMessage::TimeCode { data } => {
                data.get();
            },
            MidiMessage::SongPositionPointer { position } => {
                position.get();
            },
            MidiMessage::SongSelect { song } => {
                song.get();
            },
            _ => {},
        }
    }

    /// Which filter checkbox governs this message.
    pub fn kind(&self) -> (k: MessageKind)
        ensures
            k == self@.kind(),
    {
        match self {
            MidiMessage::NoteOn { .. } | MidiMessage::NoteOff { .. } => MessageKind::NoteOnOff,
            MidiMessage::AftertouchPoly { .. } => MessageKind::AftertouchPoly,
            MidiMessage::Control { .. } => MessageKind::Control,
            MidiMessage::Program { .. } => MessageKind::Program,
            MidiMessage::ChannelPressure { .. } => MessageKind::ChannelPressure,
            MidiMessage::PitchWheel { .. } => MessageKind::PitchWheel,
            MidiMessage::TimeCode { .. } => MessageKind::TimeCode,
            MidiMessage::SongPositionPointer { .. } => MessageKind::SongPositionPointer,
            MidiMessage::SongSelect { .. } => MessageKind::SongSelect,
            MidiMessage::TuneRequest => MessageKind::TuneRequest,
            MidiMessage::Clock => MessageKind::Clock,
            MidiMessage::Start | MidiMessage::Stop | MidiMessage::Continue => MessageKind::StartStopContinue,
            MidiMessage::ActiveSense => MessageKind::ActiveSense,
            MidiMessage::Reset => MessageKind::Reset,
            MidiMessage::SystemExclusive { .. } => MessageKind::SystemExclusive,
            MidiMessage::Invalid { .. } => MessageKind::Invalid,
        }
    }

    /// The channel this message carries, if it carries one.
    pub fn channel(&self) -> (c: Option<ChannelNumber>)
        ensures
            match c {
                Some(ch) => self@.channel() == Some(ch@),
                None => self@.channel() is None,
            },
    {
        match self {
            MidiMessage::NoteOn { channel, .. } | MidiMessage::NoteOff { channel, .. }
            | MidiMessage::AftertouchPoly { channel, .. } | MidiMessage::Control { channel, .. }
            | MidiMessage::Program { channel, .. } | MidiMessage::ChannelPressure { channel, .. }
            | MidiMessage::PitchWheel { channel, .. } => Some(*channel),
            _ => None,
        }
    }

    /// The name shown in the Message column.
    pub fn display_name(&self) -> (s: &'static str)
        ensures
            s@ == self@.display_name(),
    {
        match self {
            MidiMessage::NoteOn { .. } => "Note On",
            MidiMessage::NoteOff { .. } => "Note Off",
            MidiMessage::AftertouchPoly { .. } => "Aftertouch (Poly)",
            MidiMessage::Control { .. } => "Control",
            MidiMessage::Program { .. } => "Program",
            MidiMessage::ChannelPressure { .. } => "Channel Pressure",
            MidiMessage::PitchWheel { .. } => "Pitch Wheel",
            MidiMessage::TimeCode { .. } => "Time Code",
            MidiMessage::SongPositionPointer { .. } => "Song Position Pointer",
            MidiMessage::SongSelect { .. } => "Song Select",
            MidiMessage::TuneRequest => "Tune Request",
            MidiMessage::Clock => "Clock",
            MidiMessage::Start => "Start",
            MidiMessage::Stop => "Stop",
            MidiMessage::Continue => "Continue",
            MidiMessage::ActiveSense => "Active Sense",
            MidiMessage::Reset => "Reset",
            MidiMessage::SystemExclusive { .. } => "System Exclusive",
            MidiMessage::Invalid { .. } => "Invalid",
        }
    }

    /// A copy of this message.
    pub fn duplicate(&self) -> (r: Self)
        ensures
            r@ == self@,
    {
        match self {
            MidiMessage::NoteOn { channel, note, velocity } => MidiMessage::NoteOn {
                channel: *channel,
                note: *note,
                velocity: *velocity,
            },
            MidiMessage::NoteOff { channel, note, velocity } => MidiMessage::NoteOff {
                channel: *channel,
                note: *note,
                velocity: *velocity,
            },
            MidiMessage::AftertouchPoly { channel, note, pressure } => MidiMessage::AftertouchPoly {
                channel: *channel,
                note: *note,
                pressure: *pressure,
            },
            MidiMessage::Control { channel, controller, value } => MidiMessage::Control {
                channel: *channel,
                controller: *controller,
                value: *value,
            },
            MidiMessage::Program { channel, program } => MidiMessage::Program {
                channel: *channel,
                program: *program,
            },
            MidiMessage::ChannelPressure { channel, pressure } => MidiMessage::ChannelPressure {
                channel: *channel,
                pressure: *pressure,
            },
            MidiMessage::PitchWheel { channel, value } => MidiMessage::PitchWheel {
                channel: *channel,
                value: *value,
            },
            MidiMessage::TimeCode { data } => MidiMessage::TimeCode { data: *data },
            MidiMessage::SongPositionPointer { position } => MidiMessage::SongPositionPointer {
                position: *position,
            },
            MidiMessage::SongSelect { song } => MidiMessage::SongSelect { song: *song },
            MidiMessage::TuneRequest => MidiMessage::TuneRequest,
            MidiMessage::Clock => MidiMessage::Clock,
            MidiMessage::Start => MidiMessage::Start,
            MidiMessage::Stop => MidiMessage::Stop,
            MidiMessage::Continue => MidiMessage::Continue,
            MidiMessage::ActiveSense => MidiMessage::ActiveSense,
            MidiMessage::Reset => MidiMessage::Reset,
            MidiMessage::SystemExclusive { payload } => MidiMessage::SystemExclusive {
                payload: copy_bytes(payload.as_slice()),
            },
            MidiMessage::Invalid { reason, bytes } => MidiMessage::Invalid {
                reason: *reason,
                bytes: copy_bytes(bytes.as_slice()),
            },
        }
    }
}

/// The checkbox that governs a message bears the message's own name, except
/// for the two checkboxes that cover several messages (Note On/Off and
/// Start/Stop/Continue).
pub proof fn lemma_kind_bears_name(m: MessageModel)
    requires
        !(m is NoteOn || m is NoteOff || m is Start || m is Stop || m is Continue),
    ensures
        kind_label(m.kind()) == m.display_name(),
{
}

} // verus!
