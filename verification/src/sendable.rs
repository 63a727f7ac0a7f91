//! What can be composed, and which values each composable message carries.
//!
//! [`SendableKind`] is the payload-free list of composable messages: every
//! [`MidiMessage`] but [`MidiMessage::Invalid`], which a monitor observes and a
//! sender never emits. The field table lives here because which values a message
//! carries is the MIDI specification, not a layout preference: the send screen
//! renders the fields it is handed and holds no table of its own.

use crate::constants::{CHANNEL_MAX, CHANNEL_MIN, IDENTITY_REQUEST, MAX_DATA_14, MAX_DATA_BYTE};
use crate::ids::{ChannelNumber, Data14, DataByte};
use crate::message::{MessageModel, MidiMessage};
use crate::text::same_text;
use vstd::prelude::*;

verus! {

/// Default note for the note-bearing messages: middle C.
const DEFAULT_NOTE: u8 = 60;

/// Default velocity: firm, but short of maximum, so a synth responds audibly.
const DEFAULT_VELOCITY: u8 = 100;

/// Default pressure and controller value: the midpoint of the seven-bit range.
const DEFAULT_MIDPOINT: u8 = 64;

/// Default controller: channel volume, the controller most receivers implement.
const DEFAULT_CONTROLLER: u8 = 7;

/// Centre of the pitch wheel's fourteen-bit range: no bend applied.
const PITCH_WHEEL_CENTRE: u16 = 8_192;

/// What a field accepts.
#[derive(Debug, Clone, Copy, PartialEq, Eq, Structural)]
pub enum FieldKind {
    /// A bounded number: a seven-bit value, a fourteen-bit value, or a channel.
    Number {
        /// Lowest accepted value, inclusive.
        min: u16,
        /// Highest accepted value, inclusive.
        max: u16,
    },
    /// A System Exclusive payload, entered as hexadecimal bytes without framing.
    Bytes,
}

/// Which value on a composed message a field refers to.
#[derive(Debug, Clone, Copy, PartialEq, Eq, Structural, Hash)]
pub enum FieldId {
    /// The channel a channel-bearing message is addressed to.
    Channel,
    /// The note number.
    Note,
    /// The note's velocity.
    Velocity,
    /// The controller number of a Control Change.
    Controller,
    /// The value carried by a Control Change.
    ControlValue,
    /// The program number of a Program Change.
    Program,
    /// Pressure, whether per-note or whole-channel.
    Pressure,
    /// The pitch wheel's fourteen-bit position.
    Bend,
    /// The quarter-frame byte of a Time Code message.
    TimeCodeData,
    /// The fourteen-bit position of a Song Position Pointer.
    SongPosition,
    /// The song number of a Song Select.
    Song,
    /// A System Exclusive payload.
    Payload,
}

/// A field identifier's stable text for the IPC boundary.
pub open spec fn field_id_text(f: FieldId) -> Seq<char> {
    match f {
        FieldId::Channel => "channel"@,
        FieldId::Note => "note"@,
        FieldId::Velocity => "velocity"@,
        FieldId::Controller => "controller"@,
        FieldId::ControlValue => "value"@,
        FieldId::Program => "program"@,
        FieldId::Pressure => "pressure"@,
        FieldId::Bend => "bend"@,
        FieldId::TimeCodeData => "timeCodeData"@,
        FieldId::SongPosition => "songPosition"@,
        FieldId::Song => "song"@,
        FieldId::Payload => "payload"@,
    }
}

impl FieldId {
    /// A stable identifier for crossing the IPC boundary.
    pub fn id(self) -> (s: &'static str)
        ensures
            s@ == field_id_text(self),
    {
        match self {
            FieldId::Channel => "channel",
            FieldId::Note => "note",
            FieldId::Velocity => "velocity",
            FieldId::Controller => "controller",
            FieldId::ControlValue => "value",
            FieldId::Program => "program",
            FieldId::Pressure => "pressure",
            FieldId::Bend => "bend",
            FieldId::TimeCodeData => "timeCodeData",
            FieldId::SongPosition => "songPosition",
            FieldId::Song => "song",
            FieldId::Payload => "payload",
        }
    }

    /// Resolves an identifier that arrived from the interface.
    pub fn from_id(id: &str) -> (r: Option<Self>)
        ensures
            match r {
                Some(f) => field_id_text(f) == id@,
                None => forall|f: FieldId| field_id_text(f) != id@,
            },
    {
        let all = [
            FieldId::Channel,
            FieldId::Note,
            FieldId::Velocity,
            FieldId::Controller,
            FieldId::ControlValue,
            FieldId::Program,
            FieldId::Pressure,
            FieldId::Bend,
            FieldId::TimeCodeData,
            FieldId::SongPosition,
            FieldId::Song,
            FieldId::Payload,
        ];
        let mut i: usize = 0;
        while i < 12
            invariant
                i <= 12,
                all@ == seq![
                    FieldId::Channel,
                    FieldId::Note,
                    FieldId::Velocity,
                    FieldId::Controller,
                    FieldId::ControlValue,
                    FieldId::Program,
                    FieldId::Pressure,
                    FieldId::Bend,
                    FieldId::TimeCodeData,
                    FieldId::SongPosition,
                    FieldId::Song,
                    FieldId::Payload,
                ],
                forall|k: int| 0 <= k < i ==> field_id_text(#[trigger] all@[k]) != id@,
            decreases 12 - i,
        {
            let candidate = all[i];
            if same_text(candidate.id(), id) {
                return Some(candidate);
            }
            i = i + 1;
        }
        proof {
            assert forall|f: FieldId| field_id_text(f) != id@ by {
                let k: int = match f {
                    FieldId::Channel => 0,
                    FieldId::Note => 1,
                    FieldId::Velocity => 2,
                    FieldId::Controller => 3,
                    FieldId::ControlValue => 4,
                    FieldId::Program => 5,
                    FieldId::Pressure => 6,
                    FieldId::Bend => 7,
                    FieldId::TimeCodeData => 8,
                    FieldId::SongPosition => 9,
                    FieldId::Song => 10,
                    FieldId::Payload => 11,
                };
                assert(all@[k] == f);
            }
        }
        None
    }
}

/// One editable value, as a value.
pub struct FieldModel {
    pub id: FieldId,
    pub label: Seq<char>,
    pub kind: FieldKind,
}

/// One editable value on a composed message: which value it is, what it is
/// called, and what it accepts.
#[derive(Debug, Clone, PartialEq, Eq)]
pub struct FieldSpec {
    /// Which value this is, for the command that sets it.
    pub id: FieldId,
    /// What the value means, in the user's words rather than the wire's.
    pub label: &'static str,
    /// What kind of entry it accepts, and within what bounds.
    pub kind: FieldKind,
}

impl FieldSpec {
    /// The field as a value.
    pub open spec fn view(&self) -> FieldModel {
        FieldModel { id: self.id, label: self.label@, kind: self.kind }
    }
}

/// The fields of a list, as values.
pub open spec fn field_models(v: Seq<FieldSpec>) -> Seq<FieldModel> {
    v.map_values(|f: FieldSpec| f@)
}

/// The channel field, bounded 1-16.
pub open spec fn channel_model() -> FieldModel {
    FieldModel { id: FieldId::Channel, label: "Channel"@, kind: FieldKind::Number { min: 1, max: 16 } }
}

/// A seven-bit field, bounded 0-127.
pub open spec fn seven_bit_model(id: FieldId, label: Seq<char>) -> FieldModel {
    FieldModel { id, label, kind: FieldKind::Number { min: 0, max: 127 } }
}

/// A fourteen-bit field, bounded 0-16383.
pub open spec fn fourteen_bit_model(id: FieldId, label: Seq<char>) -> FieldModel {
    FieldModel { id, label, kind: FieldKind::Number { min: 0, max: 16383 } }
}

/// A message that can be composed and sent.
#[derive(Debug, Clone, Copy, PartialEq, Eq, Structural, Hash)]
pub enum SendableKind {
    NoteOn,
    NoteOff,
    AftertouchPoly,
    Control,
    Program,
    ChannelPressure,
    PitchWheel,
    TimeCode,
    SongPositionPointer,
    SongSelect,
    TuneRequest,
    Clock,
    Start,
    Stop,
    Continue,
    ActiveSense,
    Reset,
    SystemExclusive,
}

/// The name shown in the message-type picker.
pub open spec fn sendable_label(k: SendableKind) -> Seq<char> {
    match k {
        SendableKind::NoteOn => "Note On"@,
        SendableKind::NoteOff => "Note Off"@,
        SendableKind::AftertouchPoly => "Aftertouch (Poly)"@,
        SendableKind::Control => "Control"@,
        SendableKind::Program => "Program"@,
        SendableKind::ChannelPressure => "Channel Pressure"@,
        SendableKind::PitchWheel => "Pitch Wheel"@,
        SendableKind::TimeCode => "Time Code"@,
        SendableKind::SongPositionPointer => "Song Position Pointer"@,
        SendableKind::SongSelect => "Song Select"@,
        SendableKind::TuneRequest => "Tune Request"@,
        SendableKind::Clock => "Clock"@,
        SendableKind::Start => "Start"@,
        SendableKind::Stop => "Stop"@,
        SendableKind::Continue => "Continue"@,
        SendableKind::ActiveSense => "Active Sense"@,
        SendableKind::Reset => "Reset"@,
        SendableKind::SystemExclusive => "System Exclusive"@,
    }
}

/// A composable message's stable text for the IPC boundary.
pub open spec fn sendable_id(k: SendableKind) -> Seq<char> {
    match k {
        SendableKind::NoteOn => "noteOn"@,
        SendableKind::NoteOff => "noteOff"@,
        SendableKind::AftertouchPoly => "aftertouchPoly"@,
        SendableKind::Control => "control"@,
        SendableKind::Program => "program"@,
        SendableKind::ChannelPressure => "channelPressure"@,
        SendableKind::PitchWheel => "pitchWheel"@,
        SendableKind::TimeCode => "timeCode"@,
        SendableKind::SongPositionPointer => "songPositionPointer"@,
        SendableKind::SongSelect => "songSelect"@,
        SendableKind::TuneRequest => "tuneRequest"@,
        SendableKind::Clock => "clock"@,
        SendableKind::Start => "start"@,
        SendableKind::Stop => "stop"@,
        SendableKind::Continue => "continue"@,
        SendableKind::ActiveSense => "activeSense"@,
        SendableKind::Reset => "reset"@,
        SendableKind::SystemExclusive => "systemExclusive"@,
    }
}

/// Which composable message a message is; `None` for an invalid one.
pub open spec fn kind_of(m: MessageModel) -> Option<SendableKind> {
    match m {
        MessageModel::NoteOn { .. } => Some(SendableKind::NoteOn),
        MessageModel::NoteOff { .. } => Some(SendableKind::NoteOff),
        MessageModel::AftertouchPoly { .. } => Some(SendableKind::AftertouchPoly),
        MessageModel::Control { .. } => Some(SendableKind::Control),
        MessageModel::Program { .. } => Some(SendableKind::Program),
        MessageModel::ChannelPressure { .. } => Some(SendableKind::ChannelPressure),
        MessageModel::PitchWheel { .. } => Some(SendableKind::PitchWheel),
        MessageModel::TimeCode { .. } => Some(SendableKind::TimeCode),
        MessageModel::SongPositionPointer { .. } => Some(SendableKind::SongPositionPointer),
        MessageModel::SongSelect { .. } => Some(SendableKind::SongSelect),
        MessageModel::TuneRequest => Some(SendableKind::TuneRequest),
        MessageModel::Clock => Some(SendableKind::Clock),
        MessageModel::Start => Some(SendableKind::Start),
        MessageModel::Stop => Some(SendableKind::Stop),
        MessageModel::Continue => Some(SendableKind::Continue),
        MessageModel::ActiveSense => Some(SendableKind::ActiveSense),
        MessageModel::Reset => Some(SendableKind::Reset),
        MessageModel::SystemExclusive { .. } => Some(SendableKind::SystemExclusive),
        MessageModel::Invalid { .. } => None,
    }
}

/// The values a composable message carries, in the order they are shown.
pub open spec fn fields_of(k: SendableKind) -> Seq<FieldModel> {
    match k {
        SendableKind::NoteOn | SendableKind::NoteOff => seq![
            channel_model(),
            seven_bit_model(FieldId::Note, "Note"@),
            seven_bit_model(FieldId::Velocity, "Velocity"@),
        ],
        SendableKind::AftertouchPoly => seq![
            channel_model(),
            seven_bit_model(FieldId::Note, "Note"@),
            seven_bit_model(FieldId::Pressure, "Pressure"@),
        ],
        SendableKind::Control => seq![
            channel_model(),
            seven_bit_model(FieldId::Controller, "Controller"@),
            seven_bit_model(FieldId::ControlValue, "Value"@),
        ],
        SendableKind::Program => seq![
            channel_model(),
            seven_bit_model(FieldId::Program, "Program"@),
        ],
        SendableKind::ChannelPressure => seq![
            channel_model(),
            seven_bit_model(FieldId::Pressure, "Pressure"@),
        ],
        SendableKind::PitchWheel => seq![
            channel_model(),
            fourteen_bit_model(FieldId::Bend, "Bend"@),
        ],
        SendableKind::TimeCode => seq![seven_bit_model(FieldId::TimeCodeData, "Data"@)],
        SendableKind::SongPositionPointer => seq![
            fourteen_bit_model(FieldId::SongPosition, "Position"@),
        ],
        SendableKind::SongSelect => seq![seven_bit_model(FieldId::Song, "Song"@)],
        SendableKind::SystemExclusive => seq![
            FieldModel { id: FieldId::Payload, label: "Payload"@, kind: FieldKind::Bytes },
        ],
        SendableKind::TuneRequest | SendableKind::Clock | SendableKind::Start | SendableKind::Stop
        | SendableKind::Continue | SendableKind::ActiveSense | SendableKind::Reset => seq![],
    }
}

/// The identity request's content, without its framing bytes.
pub open spec fn identity_request_payload() -> Seq<u8> {
    seq![0x7Eu8, 0x7Fu8, 0x06u8, 0x01u8]
}

/// The message a kind starts as, before the user adjusts anything: channel 1,
/// middle C at velocity 100, channel volume for a Control Change, the pitch
/// wheel centred, and the identity request for System Exclusive.
pub open spec fn default_model(k: SendableKind) -> MessageModel {
    match k {
        SendableKind::NoteOn => MessageModel::NoteOn { channel: 1, note: 60, velocity: 100 },
        SendableKind::NoteOff => MessageModel::NoteOff { channel: 1, note: 60, velocity: 0 },
        SendableKind::AftertouchPoly => MessageModel::AftertouchPoly {
            channel: 1,
            note: 60,
            pressure: 64,
        },
        SendableKind::Control => MessageModel::Control { channel: 1, controller: 7, value: 100 },
        SendableKind::Program => MessageModel::Program { channel: 1, program: 0 },
        SendableKind::ChannelPressure => MessageModel::ChannelPressure { channel: 1, pressure: 64 },
        SendableKind::PitchWheel => MessageModel::PitchWheel { channel: 1, value: 8192 },
        SendableKind::TimeCode => MessageModel::TimeCode { data: 0 },
        SendableKind::SongPositionPointer => MessageModel::SongPositionPointer { position: 0 },
        SendableKind::SongSelect => MessageModel::SongSelect { song: 0 },
        SendableKind::TuneRequest => MessageModel::TuneRequest,
        SendableKind::Clock => MessageModel::Clock,
        SendableKind::Start => MessageModel::Start,
        SendableKind::Stop => MessageModel::Stop,
        SendableKind::Continue => MessageModel::Continue,
        SendableKind::ActiveSense => MessageModel::ActiveSense,
        SendableKind::Reset => MessageModel::Reset,
        SendableKind::SystemExclusive => MessageModel::SystemExclusive {
            payload: identity_request_payload(),
        },
    }
}

/// Every composable message, in the order the picker lists them.
pub open spec fn all_sendables() -> Seq<SendableKind> {
    seq![
        SendableKind::NoteOn,
        SendableKind::NoteOff,
        SendableKind::AftertouchPoly,
        SendableKind::Control,
        SendableKind::Program,
        SendableKind::ChannelPressure,
        SendableKind::PitchWheel,
        SendableKind::TimeCode,
        SendableKind::SongPositionPointer,
        SendableKind::SongSelect,
        SendableKind::TuneRequest,
        SendableKind::Clock,
        SendableKind::Start,
        SendableKind::Stop,
        SendableKind::Continue,
        SendableKind::ActiveSense,
        SendableKind::Reset,
        SendableKind::SystemExclusive,
    ]
}

impl SendableKind {
    /// Every composable message, in the order the picker lists them: channel
    /// messages, then system common, then real time, then System Exclusive.
    pub const ALL: [SendableKind; 18] = [
        SendableKind::NoteOn,
        SendableKind::NoteOff,
        SendableKind::AftertouchPoly,
        SendableKind::Control,
        SendableKind::Program,
        SendableKind::ChannelPressure,
        SendableKind::PitchWheel,
        SendableKind::TimeCode,
        SendableKind::SongPositionPointer,
        SendableKind::SongSelect,
        SendableKind::TuneRequest,
        SendableKind::Clock,
        SendableKind::Start,
        SendableKind::Stop,
        SendableKind::Continue,
        SendableKind::ActiveSense,
        SendableKind::Reset,
        SendableKind::SystemExclusive,
    ];

    /// The name shown in the message-type picker.
    pub fn label(self) -> (s: &'static str)
        ensures
            s@ == sendable_label(self),
    {
        match self {
            SendableKind::NoteOn => "Note On",
            SendableKind::NoteOff => "Note Off",
            SendableKind::AftertouchPoly => "Aftertouch (Poly)",
            SendableKind::Control => "Control",
            SendableKind::Program => "Program",
            SendableKind::ChannelPressure => "Channel Pressure",
            SendableKind::PitchWheel => "Pitch Wheel",
            SendableKind::TimeCode => "Time Code",
            SendableKind::SongPositionPointer => "Song Position Pointer",
            SendableKind::SongSelect => "Song Select",
            SendableKind::TuneRequest => "Tune Request",
            SendableKind::Clock => "Clock",
            SendableKind::Start => "Start",
            SendableKind::Stop => "Stop",
            SendableKind::Continue => "Continue",
            SendableKind::ActiveSense => "Active Sense",
            SendableKind::Reset => "Reset",
            SendableKind::SystemExclusive => "System Exclusive",
        }
    }

    /// A stable identifier for crossing the IPC boundary.
    pub fn id(self) -> (s: &'static str)
        ensures
            s@ == sendable_id(self),
    {
        match self {
            SendableKind::NoteOn => "noteOn",
            SendableKind::NoteOff => "noteOff",
            SendableKind::AftertouchPoly => "aftertouchPoly",
            SendableKind::Control => "control",
            SendableKind::Program => "program",
            SendableKind::ChannelPressure => "channelPressure",
            SendableKind::PitchWheel => "pitchWheel",
            SendableKind::TimeCode => "timeCode",
            SendableKind::SongPositionPointer => "songPositionPointer",
            SendableKind::SongSelect => "songSelect",
            SendableKind::TuneRequest => "tuneRequest",
            SendableKind::Clock => "clock",
            SendableKind::Start => "start",
            SendableKind::Stop => "stop",
            SendableKind::Continue => "continue",
            SendableKind::ActiveSense => "activeSense",
            SendableKind::Reset => "reset",
            SendableKind::SystemExclusive => "systemExclusive",
        }
    }

    /// Resolves an identifier that arrived from the interface.
    pub fn from_id(id: &str) -> (r: Option<Self>)
        ensures
            match r {
                Some(k) => sendable_id(k) == id@,
                None => forall|k: SendableKind| sendable_id(k) != id@,
            },
    {
        let all = SendableKind::ALL;
        let mut i: usize = 0;
        while i < 18
            invariant
                i <= 18,
                all@ == seq![
                    SendableKind::NoteOn,
                    SendableKind::NoteOff,
                    SendableKind::AftertouchPoly,
                    SendableKind::Control,
                    SendableKind::Program,
                    SendableKind::ChannelPressure,
                    SendableKind::PitchWheel,
                    SendableKind::TimeCode,
                    SendableKind::SongPositionPointer,
                    SendableKind::SongSelect,
                    SendableKind::TuneRequest,
                    SendableKind::Clock,
                    SendableKind::Start,
                    SendableKind::Stop,
                    SendableKind::Continue,
                    SendableKind::ActiveSense,
                    SendableKind::Reset,
                    SendableKind::SystemExclusive,
                ],
                forall|k: int| 0 <= k < i ==> sendable_id(#[trigger] all@[k]) != id@,
            decreases 18 - i,
        {
            let candidate = all[i];
            if same_text(candidate.id(), id) {
                return Some(candidate);
            }
            i = i + 1;
        }
        proof {
            assert forall|k: SendableKind| sendable_id(k) != id@ by {
                let at: int = match k {
                    SendableKind::NoteOn => 0,
                    SendableKind::NoteOff => 1,
                    SendableKind::AftertouchPoly => 2,
                    SendableKind::Control => 3,
                    SendableKind::Program => 4,
                    SendableKind::ChannelPressure => 5,
                    SendableKind::PitchWheel => 6,
                    SendableKind::TimeCode => 7,
                    SendableKind::SongPositionPointer => 8,
                    SendableKind::SongSelect => 9,
                    SendableKind::TuneRequest => 10,
                    SendableKind::Clock => 11,
                    SendableKind::Start => 12,
                    SendableKind::Stop => 13,
                    SendableKind::Continue => 14,
                    SendableKind::ActiveSense => 15,
                    SendableKind::Reset => 16,
                    SendableKind::SystemExclusive => 17,
                };
                assert(all@[at] == k);
            }
        }
        None
    }

    /// Which kind an already-composed message is; `None` for an invalid one,
    /// which is not composable.
    pub fn of(message: &MidiMessage) -> (r: Option<Self>)
        ensures
            r == kind_of(message@),
    {
        let kind = match message {
            MidiMessage::NoteOn { .. } => SendableKind::NoteOn,
            MidiMessage::NoteOff { .. } => SendableKind::NoteOff,
            MidiMessage::AftertouchPoly { .. } => SendableKind::AftertouchPoly,
            MidiMessage::Control { .. } => SendableKind::Control,
            MidiMessage::Program { .. } => SendableKind::Program,
            MidiMessage::ChannelPressure { .. } => SendableKind::ChannelPressure,
            MidiMessage::PitchWheel { .. } => SendableKind::PitchWheel,
            MidiMessage::TimeCode { .. } => SendableKind::TimeCode,
            MidiMessage::SongPositionPointer { .. } => SendableKind::SongPositionPointer,
            MidiMessage::SongSelect { .. } => SendableKind::SongSelect,
            MidiMessage::TuneRequest => SendableKind::TuneRequest,
            MidiMessage::Clock => SendableKind::Clock,
            MidiMessage::Start => SendableKind::Start,
            MidiMessage::Stop => SendableKind::Stop,
            MidiMessage::Continue => SendableKind::Continue,
            MidiMessage::ActiveSense => SendableKind::ActiveSense,
            MidiMessage::Reset => SendableKind::Reset,
            MidiMessage::SystemExclusive { .. } => SendableKind::SystemExclusive,
            MidiMessage::Invalid { .. } => {
                return None;
            },
        };
        Some(kind)
    }

    /// The values this message carries, in the order they are shown.
    pub fn fields(self) -> (v: Vec<FieldSpec>)
        ensures
            field_models(v@) == fields_of(self),
    {
        let mut v: Vec<FieldSpec> = Vec::new();
        match self {
            SendableKind::NoteOn | SendableKind::NoteOff => {
                v.push(channel_field());
                v.push(seven_bit(FieldId::Note, "Note"));
                v.push(seven_bit(FieldId::Velocity, "Velocity"));
            },
            SendableKind::AftertouchPoly => {
                v.push(channel_field());
                v.push(seven_bit(FieldId::Note, "Note"));
                v.push(seven_bit(FieldId::Pressure, "Pressure"));
            },
            SendableKind::Control => {
                v.push(channel_field());
                v.push(seven_bit(FieldId::Controller, "Controller"));
                v.push(seven_bit(FieldId::ControlValue, "Value"));
            },
            SendableKind::Program => {
                v.push(channel_field());
                v.push(seven_bit(FieldId::Program, "Program"));
            },
            SendableKind::ChannelPressure => {
                v.push(channel_field());
                v.push(seven_bit(FieldId::Pressure, "Pressure"));
            },
            SendableKind::PitchWheel => {
                v.push(channel_field());
                v.push(fourteen_bit(FieldId::Bend, "Bend"));
            },
            SendableKind::TimeCode => {
                v.push(seven_bit(FieldId::TimeCodeData, "Data"));
            },
            SendableKind::SongPositionPointer => {
                v.push(fourteen_bit(FieldId::SongPosition, "Position"));
            },
            SendableKind::SongSelect => {
                v.push(seven_bit(FieldId::Song, "Song"));
            },
            SendableKind::SystemExclusive => {
                v.push(FieldSpec { id: FieldId::Payload, label: "Payload", kind: FieldKind::Bytes });
            },
            SendableKind::TuneRequest | SendableKind::Clock | SendableKind::Start
            | SendableKind::Stop | SendableKind::Continue | SendableKind::ActiveSense
            | SendableKind::Reset => {},
        }
        assert(field_models(v@) =~= fields_of(self));
        v
    }

    /// The message this kind starts as, before the user adjusts anything.
    pub fn default_message(self) -> (m: MidiMessage)
        ensures
            m@ == default_model(self),
            self == SendableKind::PitchWheel ==> m@ == (MessageModel::PitchWheel {
                channel: 1,
                value: 8192,
            }),
    {
        let channel = ChannelNumber::from_wire_nibble(0);
        proof {
            assert(0u8 & 0x0F == 0) by (bit_vector);
            assert(DEFAULT_NOTE & 0x7F == 60) by (bit_vector);
            assert(DEFAULT_VELOCITY & 0x7F == 100) by (bit_vector);
            assert(DEFAULT_MIDPOINT & 0x7F == 64) by (bit_vector);
            assert(DEFAULT_CONTROLLER & 0x7F == 7) by (bit_vector);
            assert(PITCH_WHEEL_CENTRE & 0x3FFF == 8192) by (bit_vector);
            assert(0u16 & 0x3FFF == 0) by (bit_vector);
        }
        match self {
            SendableKind::NoteOn => MidiMessage::NoteOn {
                channel,
                note: DataByte::from_masked(DEFAULT_NOTE),
                velocity: DataByte::from_masked(DEFAULT_VELOCITY),
            },
            SendableKind::NoteOff => MidiMessage::NoteOff {
                channel,
                note: DataByte::from_masked(DEFAULT_NOTE),
                velocity: DataByte::zero(),
            },
            SendableKind::AftertouchPoly => MidiMessage::AftertouchPoly {
                channel,
                note: DataByte::from_masked(DEFAULT_NOTE),
                pressure: DataByte::from_masked(DEFAULT_MIDPOINT),
            },
            SendableKind::Control => MidiMessage::Control {
                channel,
                controller: DataByte::from_masked(DEFAULT_CONTROLLER),
                value: DataByte::from_masked(DEFAULT_VELOCITY),
            },
            SendableKind::Program => MidiMessage::Program { channel, program: DataByte::zero() },
            SendableKind::ChannelPressure => MidiMessage::ChannelPressure {
                channel,
                pressure: DataByte::from_masked(DEFAULT_MIDPOINT),
            },
            SendableKind::PitchWheel => MidiMessage::PitchWheel {
                channel,
                value: Data14::from_masked(PITCH_WHEEL_CENTRE),
            },
            SendableKind::TimeCode => MidiMessage::TimeCode { data: DataByte::zero() },
            SendableKind::SongPositionPointer => MidiMessage::SongPositionPointer {
                position: Data14::from_masked(0),
            },
            SendableKind::SongSelect => MidiMessage::SongSelect { song: DataByte::zero() },
            SendableKind::TuneRequest => MidiMessage::TuneRequest,
            SendableKind::Clock => MidiMessage::Clock,
            SendableKind::Start => MidiMessage::Start,
            SendableKind::Stop => MidiMessage::Stop,
            SendableKind::Continue => MidiMessage::Continue,
            SendableKind::ActiveSense => MidiMessage::ActiveSense,
            SendableKind::Reset => MidiMessage::Reset,
            SendableKind::SystemExclusive => MidiMessage::SystemExclusive {
                payload: identity_request_content(),
            },
        }
    }
}

/// The identity request without its framing bytes, which the encoder restores.
fn identity_request_content() -> (payload: Vec<u8>)
    ensures
        payload@ == identity_request_payload(),
{
    let framed = IDENTITY_REQUEST;
    assert(framed@ == seq![0xF0u8, 0x7Eu8, 0x7Fu8, 0x06u8, 0x01u8, 0xF7u8]);
    let mut payload: Vec<u8> = Vec::new();
    let mut i: usize = 1;
    while i + 1 < framed.len()
        invariant
            1 <= i <= 5,
            framed@ == seq![0xF0u8, 0x7Eu8, 0x7Fu8, 0x06u8, 0x01u8, 0xF7u8],
            payload@ == framed@.subrange(1, i as int),
        decreases 6 - i,
    {
        payload.push(framed[i]);
        i = i + 1;
        assert(payload@ =~= framed@.subrange(1, i as int));
    }
    assert(payload@ =~= identity_request_payload());
    payload
}

/// The channel field, bounded by the channel range.
fn channel_field() -> (f: FieldSpec)
    ensures
        f@ == channel_model(),
{
    FieldSpec {
        id: FieldId::Channel,
        label: "Channel",
        kind: FieldKind::Number { min: CHANNEL_MIN as u16, max: CHANNEL_MAX as u16 },
    }
}

/// A seven-bit field: any of the ordinary data values.
fn seven_bit(id: FieldId, label: &'static str) -> (f: FieldSpec)
    ensures
        f@ == seven_bit_model(id, label@),
{
    FieldSpec { id, label, kind: FieldKind::Number { min: 0, max: MAX_DATA_BYTE as u16 } }
}

/// A fourteen-bit field: pitch wheel position, or song position.
fn fourteen_bit(id: FieldId, label: &'static str) -> (f: FieldSpec)
    ensures
        f@ == fourteen_bit_model(id, label@),
{
    FieldSpec { id, label, kind: FieldKind::Number { min: 0, max: MAX_DATA_14 } }
}

/// A Pitch Wheel composed from scratch bends nothing: its value sits exactly
/// halfway up the fourteen-bit range, so it is sent as `E0 00 40` on channel 1.
pub proof fn lemma_pitch_wheel_starts_centred()
    ensures
        default_model(SendableKind::PitchWheel) matches MessageModel::PitchWheel { channel, value }
            && channel == 1 && value == 8192 && 2 * value == crate::constants::MAX_DATA_14 + 1,
        crate::encoder::encoding(default_model(SendableKind::PitchWheel)) == Some(
            seq![0xE0u8, 0x00u8, 0x40u8],
        ),
{
    let v: u16 = 8192;
    assert(((v & 0x7F) as u8) == 0x00u8 && (((v >> 7) & 0x7F) as u8) == 0x40u8) by (bit_vector)
        requires
            v == 8192,
    ;
    assert((0xE0u8 | ((1u8 - 1) as u8)) == 0xE0u8) by (bit_vector);
    assert(crate::encoder::encoding(default_model(SendableKind::PitchWheel)) =~= Some(
        seq![0xE0u8, 0x00u8, 0x40u8],
    ));
}

} // verus!
