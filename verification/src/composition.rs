//! The message being built on the send screen.
//!
//! A composition holds both an interpretation and a byte string, and which of
//! the two is authoritative depends on where it came from. Type `90 3C 00` by
//! hand and the decoder reads a Note On of velocity zero as a release;
//! re-encoding that reading would give `80 3C 00`, bytes the user never typed.
//! So for a hand-typed composition the bytes are the authority and the message
//! is for display, while for a guided composition the message is what is
//! edited and the bytes are derived from it.
//!
//! Hand-typed bytes are validated by the crate's own decoder, so the send
//! screen and the event table never disagree about what a byte string is.

use crate::decoder::{abandon, feed, fresh_decoder, Decoded, DecodedModel, MessageDecoder};
use crate::encoder::{encode, encoding};
use crate::error::CoreError;
use crate::ids::{ChannelNumber, Data14, DataByte};
use crate::message::{reason_label, MessageModel, MidiMessage};
use crate::sendable::{
    default_model, field_id_text, field_models, fields_of, kind_of, sendable_id, FieldId, FieldKind,
    FieldModel, FieldSpec, SendableKind,
};
use crate::text::{
    char_hex_value, char_is_hex_digit, char_is_whitespace, chars_of, compact_hex, copy_bytes, decimal, digit_char, hex_byte,
    decimal_string, hex_value, is_hex_digit, is_whitespace, lemma_decimal_parses, parse_u16, parsed_u16, push_decimal,
    same_bytes, spaced_hex, spaced_hex_string, to_string, trim, trimmed,
};
use vstd::prelude::*;

verus! {

/// A composition, as a value.
pub enum CompositionModel {
    Guided { message: MessageModel },
    Raw { bytes: Seq<u8>, message: MessageModel },
}

/// The message currently being built, and where its authority lies.
#[derive(Debug, Clone, PartialEq, Eq)]
pub enum Composition {
    /// Built from named controls. The message is the authority; bytes are derived.
    Guided {
        /// What the user is editing.
        message: MidiMessage,
    },
    /// Typed as bytes and validated by the decoder. The bytes are the authority.
    Raw {
        /// Exactly what the user typed, normalised only in spacing and case.
        bytes: Vec<u8>,
        /// The decoder's reading of those bytes, for display alone.
        message: MidiMessage,
    },
}

/// Why an entry was refused, as a value.
pub enum FieldRefusal {
    /// The composition does not carry the field.
    UnknownField { field: Seq<char> },
    /// The number is not readable, or outside the field's bounds.
    OutOfRange { field: Seq<char>, min: u16, max: u16 },
    /// The bytes are not exactly one valid message, or not readable as bytes.
    Malformed { detail: Seq<char> },
    /// No composable message carries that identifier.
    UnknownKind { id: Seq<char> },
}

/// Whether an error is the refusal described.
pub open spec fn refused_as(e: CoreError, r: FieldRefusal) -> bool {
    match r {
        FieldRefusal::UnknownField { field } => e matches CoreError::UnknownField { field: f }
            && f@ == field,
        FieldRefusal::OutOfRange { field, min, max } => e matches CoreError::ValueOutOfRange {
            field: f,
            min: lo,
            max: hi,
        } && f@ == field && lo == min && hi == max,
        FieldRefusal::Malformed { detail } => e matches CoreError::MalformedSendBytes { detail: d }
            && d@ == detail,
        FieldRefusal::UnknownKind { id } => e matches CoreError::UnknownSendableKind { id: i }
            && i@ == id,
    }
}

/// The digits of a hexadecimal entry with white space skipped, or the first
/// character that is neither.
pub open spec fn hex_scan(entry: Seq<char>) -> Result<Seq<char>, char>
    decreases entry.len(),
{
    if entry.len() == 0 {
        Ok(Seq::empty())
    } else if is_whitespace(entry[0]) {
        hex_scan(entry.drop_first())
    } else if !is_hex_digit(entry[0]) {
        Err(entry[0])
    } else {
        match hex_scan(entry.drop_first()) {
            Ok(rest) => Ok(seq![entry[0]] + rest),
            Err(c) => Err(c),
        }
    }
}

/// Digits read so far, in front of what the rest of the entry scans to.
pub open spec fn after_digits(digits: Seq<char>, rest: Result<Seq<char>, char>) -> Result<
    Seq<char>,
    char,
> {
    match rest {
        Ok(more) => Ok(digits + more),
        Err(c) => Err(c),
    }
}

/// Pairs of hexadecimal digits read as bytes, high digit first.
pub open spec fn byte_pairs(digits: Seq<char>) -> Seq<u8> {
    Seq::new(
        digits.len() / 2,
        |k: int| (hex_value(digits[2 * k]) * 16 + hex_value(digits[2 * k + 1])) as u8,
    )
}

/// What a hexadecimal entry reads as: its bytes, or why it is refused.
pub open spec fn hex_entry_outcome(entry: Seq<char>) -> Result<Seq<u8>, Seq<char>> {
    match hex_scan(entry) {
        Err(c) => Err(seq![c] + " is not a hexadecimal digit"@),
        Ok(digits) => if digits.len() == 0 {
            Err("enter at least one byte"@)
        } else if digits.len() % 2 != 0 {
            Err("each byte needs two hexadecimal digits"@)
        } else {
            Ok(byte_pairs(digits))
        },
    }
}

/// Every outcome of decoding bytes from a fresh decoder and then giving up on
/// whatever is still open.
pub open spec fn decode_entry(bytes: Seq<u8>) -> Seq<DecodedModel> {
    let (state, outcomes) = feed(fresh_decoder(), bytes);
    match abandon(state).1 {
        Some(d) => outcomes.push(d),
        None => outcomes,
    }
}

/// What a byte entry is as one complete message: the bytes and their reading,
/// or the reason it is refused.
pub open spec fn raw_entry_outcome(bytes: Seq<u8>) -> Result<CompositionModel, Seq<char>> {
    let outcomes = decode_entry(bytes);
    if outcomes.len() == 0 {
        Err("those bytes do not form a message"@)
    } else if outcomes.len() > 1 {
        Err("enter one message at a time"@)
    } else {
        match outcomes[0] {
            DecodedModel::Message { message, raw } => if raw == bytes {
                Ok(CompositionModel::Raw { bytes: raw, message })
            } else {
                Err("those bytes do not form one message"@)
            },
            DecodedModel::Invalid { reason, .. } => Err(reason_label(reason)),
            DecodedModel::SysexTruncated { true_len, .. } => Err(
                "that System Exclusive message is too long ("@ + decimal(true_len) + " bytes)"@,
            ),
            DecodedModel::SysexIncomplete { .. } => Err(
                "that System Exclusive message is not terminated"@,
            ),
        }
    }
}

/// What a hand-typed entry is as one complete message.
pub open spec fn typed_entry_outcome(entry: Seq<char>) -> Result<CompositionModel, Seq<char>> {
    match hex_entry_outcome(entry) {
        Err(detail) => Err(detail),
        Ok(bytes) => raw_entry_outcome(bytes),
    }
}

/// The numeric value of a field, if the message carries it as a number.
pub open spec fn field_number(m: MessageModel, f: FieldId) -> Option<u16> {
    match f {
        FieldId::Channel => match m.channel() {
            Some(c) => Some(c as u16),
            None => None,
        },
        FieldId::Note => match m {
            MessageModel::NoteOn { note, .. } | MessageModel::NoteOff { note, .. }
            | MessageModel::AftertouchPoly { note, .. } => Some(note as u16),
            _ => None,
        },
        FieldId::Velocity => match m {
            MessageModel::NoteOn { velocity, .. } | MessageModel::NoteOff { velocity, .. } => Some(
                velocity as u16,
            ),
            _ => None,
        },
        FieldId::Controller => match m {
            MessageModel::Control { controller, .. } => Some(controller as u16),
            _ => None,
        },
        FieldId::ControlValue => match m {
            MessageModel::Control { value, .. } => Some(value as u16),
            _ => None,
        },
        FieldId::Program => match m {
            MessageModel::Program { program, .. } => Some(program as u16),
            _ => None,
        },
        FieldId::Pressure => match m {
            MessageModel::AftertouchPoly { pressure, .. }
            | MessageModel::ChannelPressure { pressure, .. } => Some(pressure as u16),
            _ => None,
        },
        FieldId::Bend => match m {
            MessageModel::PitchWheel { value, .. } => Some(value),
            _ => None,
        },
        FieldId::TimeCodeData => match m {
            MessageModel::TimeCode { data } => Some(data as u16),
            _ => None,
        },
        FieldId::SongPosition => match m {
            MessageModel::SongPositionPointer { position } => Some(position),
            _ => None,
        },
        FieldId::Song => match m {
            MessageModel::SongSelect { song } => Some(song as u16),
            _ => None,
        },
        FieldId::Payload => None,
    }
}

/// A field's current value as the interface shows it: a number in decimal, a
/// payload as spaced uppercase hexadecimal.
pub open spec fn field_reading(m: MessageModel, f: FieldId) -> Option<Seq<char>> {
    match field_number(m, f) {
        Some(n) => Some(decimal(n as nat)),
        None => match m {
            MessageModel::SystemExclusive { payload } => if f == FieldId::Payload {
                Some(spaced_hex(payload))
            } else {
                None
            },
            _ => None,
        },
    }
}

/// The message with one numeric field replaced, or unchanged if it does not
/// carry that field.
pub open spec fn with_number(m: MessageModel, f: FieldId, v: u16) -> MessageModel {
    let b = v as u8;
    match (m, f) {
        (MessageModel::NoteOn { note, velocity, .. }, FieldId::Channel) => MessageModel::NoteOn {
            channel: b,
            note,
            velocity,
        },
        (MessageModel::NoteOff { note, velocity, .. }, FieldId::Channel) => MessageModel::NoteOff {
            channel: b,
            note,
            velocity,
        },
        (MessageModel::AftertouchPoly { note, pressure, .. }, FieldId::Channel) =>
            MessageModel::AftertouchPoly { channel: b, note, pressure },
        (MessageModel::Control { controller, value, .. }, FieldId::Channel) =>
            MessageModel::Control { channel: b, controller, value },
        (MessageModel::Program { program, .. }, FieldId::Channel) => MessageModel::Program {
            channel: b,
            program,
        },
        (MessageModel::ChannelPressure { pressure, .. }, FieldId::Channel) =>
            MessageModel::ChannelPressure { channel: b, pressure },
        (MessageModel::PitchWheel { value, .. }, FieldId::Channel) => MessageModel::PitchWheel {
            channel: b,
            value,
        },
        (MessageModel::NoteOn { channel, velocity, .. }, FieldId::Note) => MessageModel::NoteOn {
            channel,
            note: b,
            velocity,
        },
        (MessageModel::NoteOff { channel, velocity, .. }, FieldId::Note) => MessageModel::NoteOff {
            channel,
            note: b,
            velocity,
        },
        (MessageModel::AftertouchPoly { channel, pressure, .. }, FieldId::Note) =>
            MessageModel::AftertouchPoly { channel, note: b, pressure },
        (MessageModel::NoteOn { channel, note, .. }, FieldId::Velocity) => MessageModel::NoteOn {
            channel,
            note,
            velocity: b,
        },
        (MessageModel::NoteOff { channel, note, .. }, FieldId::Velocity) => MessageModel::NoteOff {
            channel,
            note,
            velocity: b,
        },
        (MessageModel::Control { channel, value, .. }, FieldId::Controller) =>
            MessageModel::Control { channel, controller: b, value },
        (MessageModel::Control { channel, controller, .. }, FieldId::ControlValue) =>
            MessageModel::Control { channel, controller, value: b },
        (MessageModel::Program { channel, .. }, FieldId::Program) => MessageModel::Program {
            channel,
            program: b,
        },
        (MessageModel::AftertouchPoly { channel, note, .. }, FieldId::Pressure) =>
            MessageModel::AftertouchPoly { channel, note, pressure: b },
        (MessageModel::ChannelPressure { channel, .. }, FieldId::Pressure) =>
            MessageModel::ChannelPressure { channel, pressure: b },
        (MessageModel::PitchWheel { channel, .. }, FieldId::Bend) => MessageModel::PitchWheel {
            channel,
            value: v,
        },
        (MessageModel::TimeCode { .. }, FieldId::TimeCodeData) => MessageModel::TimeCode { data: b },
        (MessageModel::SongPositionPointer { .. }, FieldId::SongPosition) =>
            MessageModel::SongPositionPointer { position: v },
        (MessageModel::SongSelect { .. }, FieldId::Song) => MessageModel::SongSelect { song: b },
        _ => m,
    }
}

/// The message with its System Exclusive payload replaced, or unchanged if it
/// carries none.
pub open spec fn with_payload(m: MessageModel, payload: Seq<u8>) -> MessageModel {
    match m {
        MessageModel::SystemExclusive { .. } => MessageModel::SystemExclusive { payload },
        _ => m,
    }
}

/// The first field in a list with this identifier.
pub open spec fn find_field(fields: Seq<FieldModel>, f: FieldId) -> Option<FieldModel>
    decreases fields.len(),
{
    if fields.len() == 0 {
        None
    } else if fields[0].id == f {
        Some(fields[0])
    } else {
        find_field(fields.drop_first(), f)
    }
}

/// The fields a message exposes: those of its kind, none for an invalid one.
pub open spec fn message_fields(m: MessageModel) -> Seq<FieldModel> {
    match kind_of(m) {
        Some(k) => fields_of(k),
        None => Seq::empty(),
    }
}

/// The fields a composition exposes: none for a hand-typed one.
pub open spec fn composition_fields(c: CompositionModel) -> Seq<FieldModel> {
    match c {
        CompositionModel::Guided { message } => message_fields(message),
        CompositionModel::Raw { .. } => Seq::empty(),
    }
}

/// What setting a field to an entry does to a composition: the composition
/// with that one value replaced, or the refusal.
pub open spec fn set_field_outcome(c: CompositionModel, f: FieldId, entry: Seq<char>) -> Result<
    CompositionModel,
    FieldRefusal,
> {
    match c {
        CompositionModel::Raw { .. } => Err(FieldRefusal::UnknownField { field: field_id_text(f) }),
        CompositionModel::Guided { message } => match find_field(message_fields(message), f) {
            None => Err(FieldRefusal::UnknownField { field: field_id_text(f) }),
            Some(spec) => match spec.kind {
                FieldKind::Number { min, max } => match parsed_u16(trim(entry)) {
                    Some(v) => if min <= v && v <= max {
                        Ok(CompositionModel::Guided { message: with_number(message, f, v) })
                    } else {
                        Err(FieldRefusal::OutOfRange { field: spec.label, min, max })
                    },
                    None => Err(FieldRefusal::OutOfRange { field: spec.label, min, max }),
                },
                FieldKind::Bytes => match hex_entry_outcome(entry) {
                    Ok(payload) => Ok(
                        CompositionModel::Guided { message: with_payload(message, payload) },
                    ),
                    Err(detail) => Err(FieldRefusal::Malformed { detail }),
                },
            },
        },
    }
}

/// The bounds the field table gives a numeric field.
pub open spec fn number_bounds(f: FieldId) -> (u16, u16) {
    match f {
        FieldId::Channel => (1, 16),
        FieldId::Bend | FieldId::SongPosition => (0, 16383),
        _ => (0, 127),
    }
}

/// Every field a message lists is one it carries: a numeric field has a value
/// within the bounds the table gives it, and the payload field belongs to a
/// System Exclusive message.
proof fn lemma_listed_fields(m: MessageModel, f: FieldId)
    requires
        m.wf(),
        find_field(message_fields(m), f) is Some,
    ensures
        ({
            let spec = find_field(message_fields(m), f)->0;
            &&& spec.id == f
            &&& spec.kind is Number ==> {
                &&& field_number(m, f) is Some
                &&& spec.kind == FieldKind::Number {
                    min: number_bounds(f).0,
                    max: number_bounds(f).1,
                }
            }
            &&& spec.kind is Bytes ==> f == FieldId::Payload && m is SystemExclusive
        }),
{
    reveal_with_fuel(find_field, 4);
}

impl Composition {
    /// The composition as a value.
    pub open spec fn view(&self) -> CompositionModel {
        match self {
            Composition::Guided { message } => CompositionModel::Guided { message: message@ },
            Composition::Raw { bytes, message } => CompositionModel::Raw {
                bytes: bytes@,
                message: message@,
            },
        }
    }

    /// A copy of this composition.
    pub fn duplicate(&self) -> (c: Self)
        ensures
            c@ == self@,
    {
        match self {
            Composition::Guided { message } => Composition::Guided { message: message.duplicate() },
            Composition::Raw { bytes, message } => Composition::Raw {
                bytes: copy_bytes(bytes.as_slice()),
                message: message.duplicate(),
            },
        }
    }

    /// Starts a composition from a message type, at its defaults.
    pub fn from_kind(kind: SendableKind) -> (c: Self)
        ensures
            c@ == (CompositionModel::Guided { message: default_model(kind) }),
    {
        Composition::Guided { message: kind.default_message() }
    }

    /// Wraps an already-built message as a guided composition.
    pub fn from_message(message: MidiMessage) -> (c: Self)
        ensures
            c@ == (CompositionModel::Guided { message: message@ }),
    {
        Composition::Guided { message }
    }

    /// Parses hand-typed bytes, accepting only one complete, valid message.
    ///
    /// Refused with `MalformedSendBytes` when the entry holds a character that
    /// is neither white space nor a hexadecimal digit, no digits, an odd number
    /// of digits, or bytes the decoder does not read as exactly one complete
    /// message; the detail says which.
    pub fn parse_raw(entry: &str) -> (r: Result<Self, CoreError>)
        ensures
            match r {
                Ok(c) => typed_entry_outcome(entry@) == Ok::<CompositionModel, Seq<char>>(c@),
                Err(e) => typed_entry_outcome(entry@) is Err && refused_as(
                    e,
                    FieldRefusal::Malformed { detail: typed_entry_outcome(entry@)->Err_0 },
                ),
            },
    {
        let bytes = parse_hex_bytes(entry)?;
        Self::from_raw_bytes(bytes.as_slice())
    }

    /// Validates already-parsed bytes as one complete message.
    pub fn from_raw_bytes(bytes: &[u8]) -> (r: Result<Self, CoreError>)
        ensures
            match r {
                Ok(c) => raw_entry_outcome(bytes@) == Ok::<CompositionModel, Seq<char>>(c@),
                Err(e) => raw_entry_outcome(bytes@) is Err && refused_as(
                    e,
                    FieldRefusal::Malformed { detail: raw_entry_outcome(bytes@)->Err_0 },
                ),
            },
    {
        let mut decoder = MessageDecoder::new();
        let mut decoded = decoder.feed(bytes);
        let ghost fed = decoded_models(decoded@);
        match decoder.abandon() {
            Some(abandoned) => {
                decoded.push(abandoned);
            },
            None => {},
        }
        proof {
            assert(decoded_models(decoded@) =~= decode_entry(bytes@));
        }
        if decoded.len() == 0 {
            return Err(
                CoreError::MalformedSendBytes {
                    detail: to_string("those bytes do not form a message"),
                },
            );
        }
        if decoded.len() > 1 {
            return Err(
                CoreError::MalformedSendBytes { detail: to_string("enter one message at a time") },
            );
        }
        let first = decoded.pop().unwrap();
        proof {
            assert(first@ == decode_entry(bytes@)[0]);
        }
        match first {
            Decoded::Message { message, raw } => if same_bytes(raw.as_slice(), bytes) {
                Ok(Composition::Raw { bytes: raw, message })
            } else {
                Err(
                    CoreError::MalformedSendBytes {
                        detail: to_string("those bytes do not form one message"),
                    },
                )
            },
            Decoded::Invalid { reason, .. } => Err(
                CoreError::MalformedSendBytes { detail: to_string(reason.label()) },
            ),
            Decoded::SysexTruncated { true_len, .. } => {
                let mut detail = to_string("that System Exclusive message is too long (");
                push_decimal(&mut detail, true_len as u128);
                detail.append(" bytes)");
                Err(CoreError::MalformedSendBytes { detail })
            },
            Decoded::SysexIncomplete { .. } => Err(
                CoreError::MalformedSendBytes {
                    detail: to_string("that System Exclusive message is not terminated"),
                },
            ),
        }
    }

    /// The message, for display and for the record of what was sent.
    pub fn message(&self) -> (m: &MidiMessage)
        ensures
            m@ == match self@ {
                CompositionModel::Guided { message } => message,
                CompositionModel::Raw { message, .. } => message,
            },
    {
        match self {
            Composition::Guided { message } => message,
            Composition::Raw { message, .. } => message,
        }
    }

    /// The bytes this composition would transmit: derived from the message for
    /// a guided composition, stored for a hand-typed one.
    pub fn bytes(&self) -> (r: Result<Vec<u8>, CoreError>)
        ensures
            match self@ {
                CompositionModel::Guided { message } => match r {
                    Ok(b) => encoding(message) == Some(b@),
                    Err(e) => encoding(message) is None && (e matches CoreError::UnsendableMessage {
                        reason: text,
                    } && message matches MessageModel::Invalid { reason, .. } && text@ == reason_label(
                        reason,
                    )),
                },
                CompositionModel::Raw { bytes, .. } => r matches Ok(b) && b@ == bytes,
            },
    {
        match self {
            Composition::Guided { message } => encode(message),
            Composition::Raw { bytes, .. } => Ok(copy_bytes(bytes.as_slice())),
        }
    }

    /// The values this composition exposes for editing; none for a hand-typed
    /// one, whose authority is its byte string.
    pub fn fields(&self) -> (v: Vec<FieldSpec>)
        ensures
            field_models(v@) == composition_fields(self@),
    {
        match self {
            Composition::Guided { message } => match SendableKind::of(message) {
                Some(kind) => kind.fields(),
                None => {
                    let v: Vec<FieldSpec> = Vec::new();
                    assert(field_models(v@) =~= Seq::<FieldModel>::empty());
                    v
                },
            },
            Composition::Raw { .. } => {
                let v: Vec<FieldSpec> = Vec::new();
                assert(field_models(v@) =~= Seq::<FieldModel>::empty());
                v
            },
        }
    }

    /// The current value of one field, rendered the way the interface shows it.
    pub fn field_value(&self, field: FieldId) -> (r: Option<String>)
        ensures
            match self@ {
                CompositionModel::Guided { message } => match r {
                    Some(s) => field_reading(message, field) == Some(s@),
                    None => field_reading(message, field) is None,
                },
                CompositionModel::Raw { .. } => r is None,
            },
    {
        match self {
            Composition::Guided { message } => read_field(message, field),
            Composition::Raw { .. } => None,
        }
    }

    /// Sets one value, keeping every other value as it was; on any refusal the
    /// composition is left untouched.
    pub fn set_field(&mut self, field: FieldId, entry: &str) -> (r: Result<(), CoreError>)
        ensures
            match set_field_outcome(old(self)@, field, entry@) {
                Ok(c) => r is Ok && final(self)@ == c,
                Err(refusal) => r matches Err(e) && refused_as(e, refusal) && final(self)@ == old(
                    self,
                )@,
            },
    {
        let mut message = match self {
            Composition::Guided { message } => message.duplicate(),
            Composition::Raw { .. } => {
                return Err(CoreError::UnknownField { field: to_string(field.id()) });
            },
        };
        message.check_fields_in_range();
        let listed = match SendableKind::of(&message) {
            Some(kind) => kind.fields(),
            None => {
                let v: Vec<FieldSpec> = Vec::new();
                assert(field_models(v@) =~= Seq::<FieldModel>::empty());
                v
            },
        };
        let found = find_spec(&listed, field);
        let spec = match found {
            Some(spec) => spec,
            None => {
                return Err(CoreError::UnknownField { field: to_string(field.id()) });
            },
        };
        proof {
            lemma_listed_fields(message@, field);
        }
        match spec.kind {
            FieldKind::Number { min, max } => {
                let value = parse_bounded(entry, &spec, min, max)?;
                write_number(&mut message, &spec, value)?;
            },
            FieldKind::Bytes => {
                let payload = parse_hex_bytes(entry)?;
                message = MidiMessage::SystemExclusive { payload };
            },
        }
        *self = Composition::Guided { message };
        Ok(())
    }
}

/// The outcomes of a list of decodings, as values.
pub open spec fn decoded_models(v: Seq<Decoded>) -> Seq<DecodedModel> {
    v.map_values(|d: Decoded| d@)
}

/// The first listed field with this identifier.
fn find_spec(fields: &Vec<FieldSpec>, field: FieldId) -> (r: Option<FieldSpec>)
    ensures
        match r {
            Some(spec) => find_field(field_models(fields@), field) == Some(spec@),
            None => find_field(field_models(fields@), field) is None,
        },
{
    let mut i: usize = 0;
    assert(field_models(fields@).skip(0) =~= field_models(fields@));
    while i < fields.len()
        invariant
            i <= fields@.len(),
            find_field(field_models(fields@), field) == find_field(
                field_models(fields@).skip(i as int),
                field,
            ),
        decreases fields@.len() - i,
    {
        let ghost rest = field_models(fields@).skip(i as int);
        proof {
            assert(rest.drop_first() =~= field_models(fields@).skip(i + 1));
            assert(rest[0] == fields@[i as int]@);
        }
        if fields[i].id == field {
            let f = &fields[i];
            return Some(FieldSpec { id: f.id, label: f.label, kind: f.kind });
        }
        i = i + 1;
    }
    proof {
        assert(field_models(fields@).skip(i as int).len() == 0);
    }
    None
}

/// Reads a hexadecimal entry into bytes, ignoring separating white space.
fn parse_hex_bytes(entry: &str) -> (r: Result<Vec<u8>, CoreError>)
    ensures
        match r {
            Ok(bytes) => hex_entry_outcome(entry@) == Ok::<Seq<u8>, Seq<char>>(bytes@),
            Err(e) => hex_entry_outcome(entry@) is Err && refused_as(
                e,
                FieldRefusal::Malformed { detail: hex_entry_outcome(entry@)->Err_0 },
            ),
        },
{
    let chars = chars_of(entry);
    let mut digits: Vec<char> = Vec::new();
    let mut i: usize = 0;
    proof {
        assert(entry@.skip(0) =~= entry@);
        assert(digits@ + Seq::<char>::empty() =~= Seq::<char>::empty());
    }
    while i < chars.len()
        invariant
            i <= chars@.len(),
            chars@ == entry@,
            forall|k: int| 0 <= k < digits@.len() ==> is_hex_digit(#[trigger] digits@[k]),
            hex_scan(entry@) == after_digits(digits@, hex_scan(entry@.skip(i as int))),
        decreases chars@.len() - i,
    {
        let c = chars[i];
        let ghost rest = entry@.skip(i as int);
        proof {
            assert(rest.drop_first() =~= entry@.skip(i + 1));
            assert(rest[0] == c);
        }
        if char_is_whitespace(c) {
        } else if !char_is_hex_digit(c) {
            let mut detail = to_string(entry.substring_char(i, i + 1));
            detail.append(" is not a hexadecimal digit");
            proof {
                assert(entry@.subrange(i as int, i + 1) =~= seq![c]);
            }
            return Err(CoreError::MalformedSendBytes { detail });
        } else {
            let ghost before = digits@;
            digits.push(c);
            proof {
                match hex_scan(entry@.skip(i + 1)) {
                    Ok(more) => {
                        assert(before + (seq![c] + more) =~= digits@ + more);
                    },
                    Err(_) => {},
                }
            }
        }
        i = i + 1;
    }
    proof {
        assert(entry@.skip(i as int).len() == 0);
        assert(digits@ + Seq::<char>::empty() =~= digits@);
    }
    if digits.len() == 0 {
        return Err(CoreError::MalformedSendBytes { detail: to_string("enter at least one byte") });
    }
    if digits.len() % 2 != 0 {
        return Err(
            CoreError::MalformedSendBytes {
                detail: to_string("each byte needs two hexadecimal digits"),
            },
        );
    }
    let count = digits.len() / 2;
    let mut bytes: Vec<u8> = Vec::with_capacity(count);
    let mut k: usize = 0;
    while k < count
        invariant
            k <= count,
            2 * count == digits@.len(),
            digits@.len() <= usize::MAX,
            forall|j: int| 0 <= j < digits@.len() ==> is_hex_digit(#[trigger] digits@[j]),
            bytes@ == byte_pairs(digits@).take(k as int),
        decreases count - k,
    {
        let high = char_hex_value(digits[2 * k]);
        let low = char_hex_value(digits[2 * k + 1]);
        bytes.push(high * 16 + low);
        k = k + 1;
        assert(bytes@ =~= byte_pairs(digits@).take(k as int));
    }
    assert(bytes@ =~= byte_pairs(digits@));
    Ok(bytes)
}

/// Parses a numeric entry and checks it against the field's own bounds.
fn parse_bounded(entry: &str, spec: &FieldSpec, min: u16, max: u16) -> (r: Result<u16, CoreError>)
    ensures
        match r {
            Ok(v) => parsed_u16(trim(entry@)) == Some(v) && min <= v <= max,
            Err(e) => !(parsed_u16(trim(entry@)) matches Some(v) && min <= v <= max) && refused_as(
                e,
                FieldRefusal::OutOfRange { field: spec.label@, min, max },
            ),
        },
{
    let text = trimmed(entry);
    let value = match parse_u16(text.as_str()) {
        Some(value) => value,
        None => {
            return Err(CoreError::ValueOutOfRange { field: to_string(spec.label), min, max });
        },
    };
    if value < min || value > max {
        return Err(CoreError::ValueOutOfRange { field: to_string(spec.label), min, max });
    }
    Ok(value)
}

/// Renders one field's current value.
fn read_field(message: &MidiMessage, field: FieldId) -> (r: Option<String>)
    ensures
        match r {
            Some(s) => field_reading(message@, field) == Some(s@),
            None => field_reading(message@, field) is None,
        },
{
    let value: u16 = match (message, field) {
        (
            MidiMessage::NoteOn { channel, .. }
            | MidiMessage::NoteOff { channel, .. }
            | MidiMessage::AftertouchPoly { channel, .. }
            | MidiMessage::Control { channel, .. }
            | MidiMessage::Program { channel, .. }
            | MidiMessage::ChannelPressure { channel, .. }
            | MidiMessage::PitchWheel { channel, .. },
            FieldId::Channel,
        ) => channel.get() as u16,
        (
            MidiMessage::NoteOn { note, .. }
            | MidiMessage::NoteOff { note, .. }
            | MidiMessage::AftertouchPoly { note, .. },
            FieldId::Note,
        ) => note.get() as u16,
        (
            MidiMessage::NoteOn { velocity, .. } | MidiMessage::NoteOff { velocity, .. },
            FieldId::Velocity,
        ) => velocity.get() as u16,
        (MidiMessage::Control { controller, .. }, FieldId::Controller) => controller.get() as u16,
        (MidiMessage::Control { value, .. }, FieldId::ControlValue) => value.get() as u16,
        (MidiMessage::Program { program, .. }, FieldId::Program) => program.get() as u16,
        (
            MidiMessage::AftertouchPoly { pressure, .. }
            | MidiMessage::ChannelPressure { pressure, .. },
            FieldId::Pressure,
        ) => pressure.get() as u16,
        (MidiMessage::PitchWheel { value, .. }, FieldId::Bend) => value.get(),
        (MidiMessage::TimeCode { data }, FieldId::TimeCodeData) => data.get() as u16,
        (MidiMessage::SongPositionPointer { position }, FieldId::SongPosition) => position.get(),
        (MidiMessage::SongSelect { song }, FieldId::Song) => song.get() as u16,
        (MidiMessage::SystemExclusive { payload }, FieldId::Payload) => {
            return Some(to_hex(payload.as_slice()));
        },
        _ => {
            return None;
        },
    };
    Some(decimal_string(value as u128))
}

/// Writes one numeric field whose value has already been checked against the
/// bounds the field table gives it.
fn write_number(message: &mut MidiMessage, spec: &FieldSpec, value: u16) -> (r: Result<
    (),
    CoreError,
>)
    requires
        number_bounds(spec.id).0 <= value <= number_bounds(spec.id).1,
    ensures
        r is Ok,
        final(message)@ == with_number(old(message)@, spec.id, value),
{
    let updated = match (&*message, spec.id) {
        (MidiMessage::NoteOn { note, velocity, .. }, FieldId::Channel) => MidiMessage::NoteOn {
            channel: to_channel(value, spec)?,
            note: *note,
            velocity: *velocity,
        },
        (MidiMessage::NoteOff { note, velocity, .. }, FieldId::Channel) => MidiMessage::NoteOff {
            channel: to_channel(value, spec)?,
            note: *note,
            velocity: *velocity,
        },
        (MidiMessage::AftertouchPoly { note, pressure, .. }, FieldId::Channel) =>
            MidiMessage::AftertouchPoly {
            channel: to_channel(value, spec)?,
            note: *note,
            pressure: *pressure,
        },
        (MidiMessage::Control { controller, value: v, .. }, FieldId::Channel) =>
            MidiMessage::Control {
            channel: to_channel(value, spec)?,
            controller: *controller,
            value: *v,
        },
        (MidiMessage::Program { program, .. }, FieldId::Channel) => MidiMessage::Program {
            channel: to_channel(value, spec)?,
            program: *program,
        },
        (MidiMessage::ChannelPressure { pressure, .. }, FieldId::Channel) =>
            MidiMessage::ChannelPressure { channel: to_channel(value, spec)?, pressure: *pressure },
        (MidiMessage::PitchWheel { value: v, .. }, FieldId::Channel) => MidiMessage::PitchWheel {
            channel: to_channel(value, spec)?,
            value: *v,
        },
        (MidiMessage::NoteOn { channel, velocity, .. }, FieldId::Note) => MidiMessage::NoteOn {
            channel: *channel,
            note: to_seven_bit(value, spec)?,
            velocity: *velocity,
        },
        (MidiMessage::NoteOff { channel, velocity, .. }, FieldId::Note) => MidiMessage::NoteOff {
            channel: *channel,
            note: to_seven_bit(value, spec)?,
            velocity: *velocity,
        },
        (MidiMessage::AftertouchPoly { channel, pressure, .. }, FieldId::Note) =>
            MidiMessage::AftertouchPoly {
            channel: *channel,
            note: to_seven_bit(value, spec)?,
            pressure: *pressure,
        },
        (MidiMessage::NoteOn { channel, note, .. }, FieldId::Velocity) => MidiMessage::NoteOn {
            channel: *channel,
            note: *note,
            velocity: to_seven_bit(value, spec)?,
        },
        (MidiMessage::NoteOff { channel, note, .. }, FieldId::Velocity) => MidiMessage::NoteOff {
            channel: *channel,
            note: *note,
            velocity: to_seven_bit(value, spec)?,
        },
        (MidiMessage::Control { channel, value: v, .. }, FieldId::Controller) =>
            MidiMessage::Control {
            channel: *channel,
            controller: to_seven_bit(value, spec)?,
            value: *v,
        },
        (MidiMessage::Control { channel, controller, .. }, FieldId::ControlValue) =>
            MidiMessage::Control {
            channel: *channel,
            controller: *controller,
            value: to_seven_bit(value, spec)?,
        },
        (MidiMessage::Program { channel, .. }, FieldId::Program) => MidiMessage::Program {
            channel: *channel,
            program: to_seven_bit(value, spec)?,
        },
        (MidiMessage::AftertouchPoly { channel, note, .. }, FieldId::Pressure) =>
            MidiMessage::AftertouchPoly {
            channel: *channel,
            note: *note,
            pressure: to_seven_bit(value, spec)?,
        },
        (MidiMessage::ChannelPressure { channel, .. }, FieldId::Pressure) =>
            MidiMessage::ChannelPressure { channel: *channel, pressure: to_seven_bit(value, spec)? },
        (MidiMessage::PitchWheel { channel, .. }, FieldId::Bend) => {
            proof {
                assert(value & 0x3FFF == value) by (bit_vector)
                    requires
                        value <= 16383,
                ;
            }
            MidiMessage::PitchWheel { channel: *channel, value: Data14::from_masked(value) }
        },
        (MidiMessage::TimeCode { .. }, FieldId::TimeCodeData) => MidiMessage::TimeCode {
            data: to_seven_bit(value, spec)?,
        },
        (MidiMessage::SongPositionPointer { .. }, FieldId::SongPosition) => {
            proof {
                assert(value & 0x3FFF == value) by (bit_vector)
                    requires
                        value <= 16383,
                ;
            }
            MidiMessage::SongPositionPointer { position: Data14::from_masked(value) }
        },
        (MidiMessage::SongSelect { .. }, FieldId::Song) => MidiMessage::SongSelect {
            song: to_seven_bit(value, spec)?,
        },
        _ => {
            return Ok(());
        },
    };
    *message = updated;
    Ok(())
}

/// Narrows a value into a seven-bit data byte, discarding the high bit.
fn to_seven_bit(value: u16, spec: &FieldSpec) -> (r: Result<DataByte, CoreError>)
    ensures
        match r {
            Ok(b) => value <= 255 && (value <= 127 ==> b@ == value),
            Err(e) => value > 255 && refused_as(
                e,
                FieldRefusal::OutOfRange { field: spec.label@, min: 0, max: 127 },
            ),
        },
{
    if value > 255 {
        return Err(CoreError::ValueOutOfRange { field: to_string(spec.label), min: 0, max: 127 });
    }
    let narrow = value as u8;
    proof {
        assert(narrow <= 127 ==> narrow & 0x7F == narrow) by (bit_vector);
    }
    Ok(DataByte::from_masked(narrow))
}

/// Narrows a value into a channel, through the validating constructor.
fn to_channel(value: u16, spec: &FieldSpec) -> (r: Result<ChannelNumber, CoreError>)
    ensures
        match r {
            Ok(c) => 1 <= value <= 16 && c@ == value,
            Err(e) => !(1 <= value <= 16),
        },
{
    if value > 255 {
        return Err(CoreError::ValueOutOfRange { field: to_string(spec.label), min: 1, max: 16 });
    }
    ChannelNumber::new(value as u8)
}

/// Formats bytes as spaced uppercase hexadecimal, the notation the entry accepts.
fn to_hex(bytes: &[u8]) -> (s: String)
    ensures
        s@ == spaced_hex(bytes@),
{
    spaced_hex_string(bytes)
}

/// One stored field value, as a value: the field's identifier and its text.
pub open spec fn stored_field(id: Seq<char>, value: Seq<char>) -> (Seq<char>, Seq<char>) {
    (id, value)
}

/// A stored composition, as a value.
pub enum PersistedModel {
    Guided { kind: Seq<char>, fields: Seq<(Seq<char>, Seq<char>)> },
    Raw { bytes: Seq<u8> },
}

/// The identifier and rendered value of every listed field that has a value.
pub open spec fn readings(m: MessageModel, fields: Seq<FieldModel>) -> Seq<(Seq<char>, Seq<char>)>
    decreases fields.len(),
{
    if fields.len() == 0 {
        Seq::empty()
    } else {
        let earlier = readings(m, fields.drop_last());
        match field_reading(m, fields.last().id) {
            Some(v) => earlier.push(stored_field(field_id_text(fields.last().id), v)),
            None => earlier,
        }
    }
}

/// What a composition is stored as: a guided one as its kind and each field's
/// value, a hand-typed one as its bytes.
pub open spec fn captured(c: CompositionModel) -> PersistedModel {
    match c {
        CompositionModel::Guided { message } => PersistedModel::Guided {
            kind: match kind_of(message) {
                Some(k) => sendable_id(k),
                None => Seq::empty(),
            },
            fields: readings(message, message_fields(message)),
        },
        CompositionModel::Raw { bytes, .. } => PersistedModel::Raw { bytes },
    }
}

/// The field whose identifier is this text, if there is one.
pub open spec fn field_named(text: Seq<char>) -> Option<FieldId> {
    if exists|f: FieldId| field_id_text(f) == text {
        Some(choose|f: FieldId| field_id_text(f) == text)
    } else {
        None
    }
}

/// The composable message whose identifier is this text, if there is one.
pub open spec fn kind_named(text: Seq<char>) -> Option<SendableKind> {
    if exists|k: SendableKind| sendable_id(k) == text {
        Some(choose|k: SendableKind| sendable_id(k) == text)
    } else {
        None
    }
}

/// Stored field values applied in order to a composition, stopping at the
/// first that is refused.
pub open spec fn apply_stored(c: CompositionModel, fields: Seq<(Seq<char>, Seq<char>)>) -> Result<
    CompositionModel,
    FieldRefusal,
>
    decreases fields.len(),
{
    if fields.len() == 0 {
        Ok(c)
    } else {
        match apply_stored(c, fields.drop_last()) {
            Err(r) => Err(r),
            Ok(earlier) => match field_named(fields.last().0) {
                None => Err(FieldRefusal::UnknownField { field: fields.last().0 }),
                Some(f) => set_field_outcome(earlier, f, fields.last().1),
            },
        }
    }
}

/// The composition a stored form rebuilds to, or why it cannot.
pub open spec fn rebuilt(p: PersistedModel) -> Result<CompositionModel, FieldRefusal> {
    match p {
        PersistedModel::Guided { kind, fields } => match kind_named(kind) {
            None => Err(FieldRefusal::UnknownKind { id: kind }),
            Some(k) => apply_stored(CompositionModel::Guided { message: default_model(k) }, fields),
        },
        PersistedModel::Raw { bytes } => match raw_entry_outcome(bytes) {
            Ok(c) => Ok(c),
            Err(detail) => Err(FieldRefusal::Malformed { detail }),
        },
    }
}

/// The length and first two characters of a field identifier.
spec fn field_id_signature(f: FieldId) -> (nat, char, char) {
    match f {
        FieldId::Channel => (7, 'c', 'h'),
        FieldId::Note => (4, 'n', 'o'),
        FieldId::Velocity => (8, 'v', 'e'),
        FieldId::Controller => (10, 'c', 'o'),
        FieldId::ControlValue => (5, 'v', 'a'),
        FieldId::Program => (7, 'p', 'r'),
        FieldId::Pressure => (8, 'p', 'r'),
        FieldId::Bend => (4, 'b', 'e'),
        FieldId::TimeCodeData => (12, 't', 'i'),
        FieldId::SongPosition => (12, 's', 'o'),
        FieldId::Song => (4, 's', 'o'),
        FieldId::Payload => (7, 'p', 'a'),
    }
}

proof fn lemma_field_id_signature(f: FieldId)
    ensures
        field_id_text(f).len() == field_id_signature(f).0,
        field_id_text(f).len() >= 2,
        field_id_text(f)[0] == field_id_signature(f).1,
        field_id_text(f)[1] == field_id_signature(f).2,
{
    match f {
        FieldId::Channel => reveal_strlit("channel"),
        FieldId::Note => reveal_strlit("note"),
        FieldId::Velocity => reveal_strlit("velocity"),
        FieldId::Controller => reveal_strlit("controller"),
        FieldId::ControlValue => reveal_strlit("value"),
        FieldId::Program => reveal_strlit("program"),
        FieldId::Pressure => reveal_strlit("pressure"),
        FieldId::Bend => reveal_strlit("bend"),
        FieldId::TimeCodeData => reveal_strlit("timeCodeData"),
        FieldId::SongPosition => reveal_strlit("songPosition"),
        FieldId::Song => reveal_strlit("song"),
        FieldId::Payload => reveal_strlit("payload"),
    }
}

/// No two fields share an identifier.
pub proof fn lemma_field_ids_distinct(a: FieldId, b: FieldId)
    requires
        field_id_text(a) == field_id_text(b),
    ensures
        a == b,
{
    lemma_field_id_signature(a);
    lemma_field_id_signature(b);
}

/// The length and first two characters of a composable message's identifier.
spec fn sendable_id_signature(k: SendableKind) -> (nat, char, char) {
    match k {
        SendableKind::NoteOn => (6, 'n', 'o'),
        SendableKind::NoteOff => (7, 'n', 'o'),
        SendableKind::AftertouchPoly => (14, 'a', 'f'),
        SendableKind::Control => (7, 'c', 'o'),
        SendableKind::Program => (7, 'p', 'r'),
        SendableKind::ChannelPressure => (15, 'c', 'h'),
        SendableKind::PitchWheel => (10, 'p', 'i'),
        SendableKind::TimeCode => (8, 't', 'i'),
        SendableKind::SongPositionPointer => (19, 's', 'o'),
        SendableKind::SongSelect => (10, 's', 'o'),
        SendableKind::TuneRequest => (11, 't', 'u'),
        SendableKind::Clock => (5, 'c', 'l'),
        SendableKind::Start => (5, 's', 't'),
        SendableKind::Stop => (4, 's', 't'),
        SendableKind::Continue => (8, 'c', 'o'),
        SendableKind::ActiveSense => (11, 'a', 'c'),
        SendableKind::Reset => (5, 'r', 'e'),
        SendableKind::SystemExclusive => (15, 's', 'y'),
    }
}

proof fn lemma_sendable_id_signature(k: SendableKind)
    ensures
        sendable_id(k).len() == sendable_id_signature(k).0,
        sendable_id(k).len() >= 2,
        sendable_id(k)[0] == sendable_id_signature(k).1,
        sendable_id(k)[1] == sendable_id_signature(k).2,
{
    match k {
        SendableKind::NoteOn => reveal_strlit("noteOn"),
        SendableKind::NoteOff => reveal_strlit("noteOff"),
        SendableKind::AftertouchPoly => reveal_strlit("aftertouchPoly"),
        SendableKind::Control => reveal_strlit("control"),
        SendableKind::Program => reveal_strlit("program"),
        SendableKind::ChannelPressure => reveal_strlit("channelPressure"),
        SendableKind::PitchWheel => reveal_strlit("pitchWheel"),
        SendableKind::TimeCode => reveal_strlit("timeCode"),
        SendableKind::SongPositionPointer => reveal_strlit("songPositionPointer"),
        SendableKind::SongSelect => reveal_strlit("songSelect"),
        SendableKind::TuneRequest => reveal_strlit("tuneRequest"),
        SendableKind::Clock => reveal_strlit("clock"),
        SendableKind::Start => reveal_strlit("start"),
        SendableKind::Stop => reveal_strlit("stop"),
        SendableKind::Continue => reveal_strlit("continue"),
        SendableKind::ActiveSense => reveal_strlit("activeSense"),
        SendableKind::Reset => reveal_strlit("reset"),
        SendableKind::SystemExclusive => reveal_strlit("systemExclusive"),
    }
}

/// No two composable messages share an identifier.
pub proof fn lemma_sendable_ids_distinct(a: SendableKind, b: SendableKind)
    requires
        sendable_id(a) == sendable_id(b),
    ensures
        a == b,
{
    lemma_sendable_id_signature(a);
    lemma_sendable_id_signature(b);
}

/// One stored field value.
#[derive(Debug, Clone, PartialEq, Eq)]
pub struct PersistedField {
    /// The field's identifier, as [`FieldId::id`] produces it.
    pub id: String,
    /// The value, in the notation the field accepts.
    pub value: String,
}

impl PersistedField {
    /// The stored pair, as a value.
    pub open spec fn view(&self) -> (Seq<char>, Seq<char>) {
        stored_field(self.id@, self.value@)
    }
}

/// The stored pairs of a list, as values.
pub open spec fn stored_fields(v: Seq<PersistedField>) -> Seq<(Seq<char>, Seq<char>)> {
    v.map_values(|f: PersistedField| f@)
}

/// A composition in the form that survives a restart: for a guided one, which
/// message and what its values were; for a hand-typed one, the bytes as typed.
#[derive(Debug, Clone, PartialEq, Eq)]
pub enum PersistedComposition {
    /// A composition built from named controls.
    Guided {
        /// Which message, by the identifier [`SendableKind::id`] produces.
        kind: String,
        /// Each field's identifier and the value it held.
        fields: Vec<PersistedField>,
    },
    /// A composition typed as bytes.
    Raw {
        /// Exactly the bytes that were typed.
        bytes: Vec<u8>,
    },
}

proof fn lemma_apply_stored_refusal_persists(
    c: CompositionModel,
    fields: Seq<(Seq<char>, Seq<char>)>,
    n: int,
)
    requires
        0 <= n <= fields.len(),
        apply_stored(c, fields.take(n)) is Err,
    ensures
        apply_stored(c, fields) == apply_stored(c, fields.take(n)),
    decreases fields.len() - n,
{
    if n < fields.len() {
        assert(fields.take(n + 1).drop_last() =~= fields.take(n));
        lemma_apply_stored_refusal_persists(c, fields, n + 1);
    } else {
        assert(fields.take(n) =~= fields);
    }
}

impl PersistedComposition {
    /// The stored form, as a value.
    pub open spec fn view(&self) -> PersistedModel {
        match self {
            PersistedComposition::Guided { kind, fields } => PersistedModel::Guided {
                kind: kind@,
                fields: stored_fields(fields@),
            },
            PersistedComposition::Raw { bytes } => PersistedModel::Raw { bytes: bytes@ },
        }
    }

    /// Captures a composition for storage.
    pub fn capture(composition: &Composition) -> (p: Self)
        ensures
            p@ == captured(composition@),
    {
        match composition {
            Composition::Guided { message } => {
                let kind = match SendableKind::of(message) {
                    Some(kind) => to_string(kind.id()),
                    None => String::new(),
                };
                let specs = composition.fields();
                let ghost listed = message_fields(message@);
                let mut fields: Vec<PersistedField> = Vec::new();
                let mut i: usize = 0;
                while i < specs.len()
                    invariant
                        i <= specs@.len(),
                        field_models(specs@) == listed,
                        composition@ == (CompositionModel::Guided { message: message@ }),
                        listed == message_fields(message@),
                        stored_fields(fields@) == readings(message@, listed.take(i as int)),
                    decreases specs@.len() - i,
                {
                    let id = specs[i].id;
                    proof {
                        assert(listed.take(i + 1).drop_last() =~= listed.take(i as int));
                        assert(listed.take(i + 1).last() == specs@[i as int]@);
                    }
                    let ghost before = fields@;
                    match composition.field_value(id) {
                        Some(value) => {
                            fields.push(PersistedField { id: to_string(id.id()), value });
                            proof {
                                assert(stored_fields(fields@) =~= stored_fields(before).push(
                                    stored_field(field_id_text(id), value@),
                                ));
                            }
                        },
                        None => {},
                    }
                    i = i + 1;
                }
                proof {
                    assert(listed.take(i as int) =~= listed);
                }
                PersistedComposition::Guided { kind, fields }
            },
            Composition::Raw { bytes, .. } => PersistedComposition::Raw {
                bytes: copy_bytes(bytes.as_slice()),
            },
        }
    }

    /// Rebuilds the composition this was captured from.
    ///
    /// Refused when the stored message type is not one this build knows
    /// (`UnknownSendableKind`), or when a stored value is not one it accepts
    /// (`UnknownField`, `ValueOutOfRange`, `MalformedSendBytes`); either means
    /// the document was written by another version or edited by hand.
    pub fn rebuild(&self) -> (r: Result<Composition, CoreError>)
        ensures
            match rebuilt(self@) {
                Ok(c) => r matches Ok(x) && x@ == c,
                Err(refusal) => r matches Err(e) && refused_as(e, refusal),
            },
    {
        match self {
            PersistedComposition::Guided { kind, fields } => {
                let found = SendableKind::from_id(kind.as_str());
                let sendable = match found {
                    Some(sendable) => sendable,
                    None => {
                        proof {
                            assert(!(exists|k: SendableKind| sendable_id(k) == kind@));
                        }
                        return Err(CoreError::UnknownSendableKind { id: kind.clone() });
                    },
                };
                proof {
                    lemma_sendable_ids_distinct(sendable, kind_named(kind@)->0);
                }
                let mut composition = Composition::from_kind(sendable);
                let ghost start = composition@;
                let ghost stored = stored_fields(fields@);
                let mut i: usize = 0;
                assert(apply_stored(start, stored.take(0)) == Ok::<CompositionModel, FieldRefusal>(start));
                while i < fields.len()
                    invariant
                        i <= fields@.len(),
                        stored == stored_fields(fields@),
                        apply_stored(start, stored.take(i as int)) == Ok::<
                            CompositionModel,
                            FieldRefusal,
                        >(composition@),
                        rebuilt(self@) == apply_stored(start, stored),
                    decreases fields@.len() - i,
                {
                    let field = &fields[i];
                    proof {
                        assert(stored.take(i + 1).drop_last() =~= stored.take(i as int));
                        assert(stored.take(i + 1).last() == field@);
                    }
                    let id = match FieldId::from_id(field.id.as_str()) {
                        Some(id) => id,
                        None => {
                            proof {
                                assert(!(exists|f: FieldId| field_id_text(f) == field.id@));
                                lemma_apply_stored_refusal_persists(start, stored, i + 1);
                            }
                            return Err(CoreError::UnknownField { field: field.id.clone() });
                        },
                    };
                    proof {
                        lemma_field_ids_distinct(id, field_named(field.id@)->0);
                    }
                    match composition.set_field(id, field.value.as_str()) {
                        Ok(()) => {},
                        Err(e) => {
                            proof {
                                lemma_apply_stored_refusal_persists(start, stored, i + 1);
                            }
                            return Err(e);
                        },
                    }
                    i = i + 1;
                }
                proof {
                    assert(stored.take(i as int) =~= stored);
                }
                Ok(composition)
            },
            PersistedComposition::Raw { bytes } => Composition::from_raw_bytes(bytes.as_slice()),
        }
    }
}

proof fn lemma_hex_scan_concat(a: Seq<char>, b: Seq<char>)
    requires
        hex_scan(a) is Ok,
    ensures
        hex_scan(a + b) == after_digits(hex_scan(a)->Ok_0, hex_scan(b)),
    decreases a.len(),
{
    if a.len() == 0 {
        assert(a + b =~= b);
        match hex_scan(b) {
            Ok(more) => {
                assert(Seq::<char>::empty() + more =~= more);
            },
            Err(_) => {},
        }
    } else {
        let ab = a + b;
        assert(ab[0] == a[0]);
        assert(ab.drop_first() =~= a.drop_first() + b);
        lemma_hex_scan_concat(a.drop_first(), b);
        if !is_whitespace(a[0]) {
            match hex_scan(b) {
                Ok(more) => {
                    let rest = hex_scan(a.drop_first())->Ok_0;
                    assert(seq![a[0]] + (rest + more) =~= (seq![a[0]] + rest) + more);
                },
                Err(_) => {},
            }
        }
    }
}

proof fn lemma_digit_char_hex(d: nat)
    requires
        d < 16,
    ensures
        is_hex_digit(digit_char(d)),
        !is_whitespace(digit_char(d)),
        hex_value(digit_char(d)) == d,
{
}

proof fn lemma_hex_byte_scan(b: u8)
    ensures
        hex_scan(hex_byte(b)) == Ok::<Seq<char>, char>(hex_byte(b)),
{
    let hb = hex_byte(b);
    lemma_digit_char_hex((b / 16) as nat);
    lemma_digit_char_hex((b % 16) as nat);
    let tail = hb.drop_first();
    assert(tail.drop_first() =~= Seq::<char>::empty());
    assert(hex_scan(tail.drop_first()) == Ok::<Seq<char>, char>(Seq::empty()));
    assert(hex_scan(tail) == Ok::<Seq<char>, char>(seq![tail[0]] + Seq::<char>::empty()));
    assert(seq![tail[0]] + Seq::<char>::empty() =~= tail);
    assert(seq![hb[0]] + tail =~= hb);
}

proof fn lemma_spaced_hex_scan(p: Seq<u8>)
    ensures
        hex_scan(spaced_hex(p)) == Ok::<Seq<char>, char>(compact_hex(p)),
    decreases p.len(),
{
    if p.len() == 0 {
    } else if p.len() == 1 {
        lemma_hex_byte_scan(p[0]);
        assert(p.drop_last() =~= Seq::<u8>::empty());
        assert(compact_hex(p.drop_last()) =~= Seq::<char>::empty());
        assert(p.last() == p[0]);
        assert(compact_hex(p) =~= hex_byte(p[0]));
    } else {
        let front = spaced_hex(p.drop_last());
        let hb = hex_byte(p.last());
        lemma_spaced_hex_scan(p.drop_last());
        lemma_hex_byte_scan(p.last());
        let tail = seq![' '] + hb;
        assert(tail[0] == ' ');
        assert(tail.drop_first() =~= hb);
        assert(hex_scan(tail) == hex_scan(hb));
        assert(spaced_hex(p) =~= front + tail);
        lemma_hex_scan_concat(front, tail);
    }
}

proof fn lemma_compact_hex_digits(p: Seq<u8>)
    ensures
        compact_hex(p).len() == 2 * p.len(),
        forall|k: int|
            0 <= k < p.len() ==> compact_hex(p)[2 * k] == digit_char((p[k] / 16) as nat)
                && compact_hex(p)[2 * k + 1] == digit_char((p[k] % 16) as nat),
    decreases p.len(),
{
    if p.len() > 0 {
        lemma_compact_hex_digits(p.drop_last());
        let c = compact_hex(p);
        let front = compact_hex(p.drop_last());
        assert forall|k: int| 0 <= k < p.len() implies c[2 * k] == digit_char((p[k] / 16) as nat)
            && c[2 * k + 1] == digit_char((p[k] % 16) as nat) by {
            if k < p.len() - 1 {
                assert(c[2 * k] == front[2 * k]);
                assert(c[2 * k + 1] == front[2 * k + 1]);
                assert(p.drop_last()[k] == p[k]);
            }
        }
    }
}

/// Bytes written as spaced hexadecimal read back as the same bytes, as long as
/// there is at least one of them.
pub proof fn lemma_spaced_hex_reads_back(p: Seq<u8>)
    requires
        p.len() > 0,
    ensures
        hex_entry_outcome(spaced_hex(p)) == Ok::<Seq<u8>, Seq<char>>(p),
{
    lemma_spaced_hex_scan(p);
    lemma_compact_hex_digits(p);
    let digits = compact_hex(p);
    assert(digits.len() % 2 == 0);
    assert forall|k: int| 0 <= k < p.len() implies #[trigger] byte_pairs(digits)[k] == p[k] by {
        lemma_digit_char_hex((p[k] / 16) as nat);
        lemma_digit_char_hex((p[k] % 16) as nat);
    }
    assert(byte_pairs(digits) =~= p);
}

/// The message with one field taken from another message of the same kind.
pub open spec fn stored_value(cur: MessageModel, f: FieldId, m: MessageModel) -> MessageModel {
    if f == FieldId::Payload {
        match m {
            MessageModel::SystemExclusive { payload } => with_payload(cur, payload),
            _ => cur,
        }
    } else {
        match field_number(m, f) {
            Some(n) => with_number(cur, f, n),
            None => cur,
        }
    }
}

/// A base message with the listed fields, in order, taken from another.
pub open spec fn overlay(base: MessageModel, m: MessageModel, fields: Seq<FieldModel>) -> MessageModel
    decreases fields.len(),
{
    if fields.len() == 0 {
        base
    } else {
        stored_value(overlay(base, m, fields.drop_last()), fields.last().id, m)
    }
}

proof fn lemma_overlay_complete(m: MessageModel)
    requires
        kind_of(m) is Some,
    ensures
        overlay(default_model(kind_of(m)->0), m, message_fields(m)) == m,
{
    reveal_with_fuel(overlay, 4);
    let fields = message_fields(m);
    if fields.len() == 3 {
        assert(fields.drop_last().drop_last().drop_last() =~= Seq::<FieldModel>::empty());
    } else if fields.len() == 2 {
        assert(fields.drop_last().drop_last() =~= Seq::<FieldModel>::empty());
    } else if fields.len() == 1 {
        assert(fields.drop_last() =~= Seq::<FieldModel>::empty());
    }
}

proof fn lemma_find_listed(fields: Seq<FieldModel>, i: int)
    requires
        0 <= i < fields.len(),
        forall|a: int, b: int| 0 <= a < b < fields.len() ==> fields[a].id != fields[b].id,
    ensures
        find_field(fields, fields[i].id) == Some(fields[i]),
    decreases i,
{
    if i > 0 {
        let rest = fields.drop_first();
        assert forall|a: int, b: int| 0 <= a < b < rest.len() implies rest[a].id != rest[b].id by {
            assert(rest[a] == fields[a + 1]);
            assert(rest[b] == fields[b + 1]);
        }
        assert(fields[0].id != fields[i].id);
        lemma_find_listed(rest, i - 1);
    }
}

proof fn lemma_listed_ids_distinct(m: MessageModel)
    ensures
        forall|a: int, b: int|
            0 <= a < b < message_fields(m).len() ==> message_fields(m)[a].id != message_fields(
                m,
            )[b].id,
{
}

proof fn lemma_number_in_bounds(m: MessageModel, f: FieldId)
    requires
        m.wf(),
        field_number(m, f) is Some,
    ensures
        number_bounds(f).0 <= field_number(m, f)->0 <= number_bounds(f).1,
{
}

proof fn lemma_stored_value_keeps(cur: MessageModel, f: FieldId, m: MessageModel)
    requires
        cur.wf(),
        m.wf(),
        kind_of(cur) == kind_of(m),
    ensures
        kind_of(stored_value(cur, f, m)) == kind_of(m),
        stored_value(cur, f, m).wf(),
{
    if f != FieldId::Payload && field_number(m, f) is Some {
        lemma_number_in_bounds(m, f);
    }
}

proof fn lemma_field_named(f: FieldId)
    ensures
        field_named(field_id_text(f)) == Some(f),
{
    let g = choose|g: FieldId| field_id_text(g) == field_id_text(f);
    lemma_field_ids_distinct(g, f);
}

proof fn lemma_kind_named(k: SendableKind)
    ensures
        kind_named(sendable_id(k)) == Some(k),
{
    let g = choose|g: SendableKind| sendable_id(g) == sendable_id(k);
    lemma_sendable_ids_distinct(g, k);
}

proof fn lemma_readings_prefix(m: MessageModel, d: MessageModel, i: int)
    requires
        m.wf(),
        d.wf(),
        kind_of(m) is Some,
        kind_of(d) == kind_of(m),
        !(m matches MessageModel::SystemExclusive { payload } && payload.len() == 0),
        0 <= i <= message_fields(m).len(),
    ensures
        apply_stored(CompositionModel::Guided { message: d }, readings(m, message_fields(m).take(i)))
            == Ok::<CompositionModel, FieldRefusal>(
            CompositionModel::Guided { message: overlay(d, m, message_fields(m).take(i)) },
        ),
        kind_of(overlay(d, m, message_fields(m).take(i))) == kind_of(m),
        overlay(d, m, message_fields(m).take(i)).wf(),
    decreases i,
{
    let fields = message_fields(m);
    if i == 0 {
        assert(fields.take(0) =~= Seq::<FieldModel>::empty());
    } else {
        lemma_readings_prefix(m, d, i - 1);
        let before = fields.take(i - 1);
        let now = fields.take(i);
        assert(now.drop_last() =~= before);
        let spec = fields[i - 1];
        let f = spec.id;
        assert(now.last() == spec);
        let cur = overlay(d, m, before);
        lemma_listed_ids_distinct(m);
        lemma_find_listed(fields, i - 1);
        assert(message_fields(cur) == fields);
        lemma_listed_fields(m, f);
        lemma_listed_fields(cur, f);
        lemma_field_named(f);
        lemma_stored_value_keeps(cur, f, m);
        match spec.kind {
            FieldKind::Number { .. } => {
                let n = field_number(m, f)->0;
                lemma_number_in_bounds(m, f);
                lemma_decimal_parses(n);
                assert(field_reading(m, f) == Some(decimal(n as nat)));
                assert(f != FieldId::Payload);
            },
            FieldKind::Bytes => {
                let payload = m->SystemExclusive_payload;
                lemma_spaced_hex_reads_back(payload);
                assert(field_reading(m, f) == Some(spaced_hex(payload)));
            },
        }
        let reading = field_reading(m, f)->0;
        assert(set_field_outcome(CompositionModel::Guided { message: cur }, f, reading) == Ok::<
            CompositionModel,
            FieldRefusal,
        >(CompositionModel::Guided { message: stored_value(cur, f, m) }));
        assert(overlay(d, m, now) == stored_value(cur, f, m));
        let stored = readings(m, now);
        assert(stored == readings(m, before).push(stored_field(field_id_text(f), reading)));
        assert(stored.drop_last() =~= readings(m, before));
        assert(stored.last() == stored_field(field_id_text(f), reading));
    }
}

/// A guided composition stored and rebuilt is the composition it was. This
/// holds of every composable message but a System Exclusive message with an
/// empty payload, whose stored payload reads back as no bytes at all.
pub proof fn lemma_capture_then_rebuild(m: MessageModel)
    requires
        m.wf(),
        !(m is Invalid),
        !(m matches MessageModel::SystemExclusive { payload } && payload.len() == 0),
    ensures
        rebuilt(captured(CompositionModel::Guided { message: m })) == Ok::<
            CompositionModel,
            FieldRefusal,
        >(CompositionModel::Guided { message: m }),
{
    let k = kind_of(m)->0;
    lemma_kind_named(k);
    let d = default_model(k);
    let fields = message_fields(m);
    lemma_readings_prefix(m, d, fields.len() as int);
    assert(fields.take(fields.len() as int) =~= fields);
    lemma_overlay_complete(m);
}

/// The one field entered as bytes is the payload.
proof fn lemma_bytes_field_is_payload(m: MessageModel, f: FieldId)
    requires
        find_field(message_fields(m), f) is Some,
    ensures
        find_field(message_fields(m), f)->0.id == f,
        find_field(message_fields(m), f)->0.kind is Bytes ==> f == FieldId::Payload,
{
    reveal_with_fuel(find_field, 4);
}

/// Replacing one numeric value keeps the message's kind and every other
/// value's reading.
proof fn lemma_with_number_touches_one_field(m: MessageModel, f: FieldId, v: u16, g: FieldId)
    requires
        g != f,
    ensures
        kind_of(with_number(m, f, v)) == kind_of(m),
        field_reading(with_number(m, f, v), g) == field_reading(m, g),
{
    match m {
        MessageModel::SystemExclusive { .. } => {},
        MessageModel::Invalid { .. } => {},
        _ => {},
    }
}

/// Setting one field of a composition changes that field alone: the result
/// is a guided composition of the same kind, and every other field reads as it
/// did. A refused entry leaves the composition as it was, as
/// [`Composition::set_field`] states.
pub proof fn lemma_set_field_touches_one_field(c: CompositionModel, f: FieldId, entry: Seq<char>)
    ensures
        set_field_outcome(c, f, entry) matches Ok(after) ==> {
            &&& c matches CompositionModel::Guided { message: before }
            &&& after matches CompositionModel::Guided { message: now }
            &&& kind_of(now) == kind_of(before)
            &&& forall|g: FieldId| g != f ==> #[trigger] field_reading(now, g) == field_reading(before, g)
        },
{
    if let Ok(after) = set_field_outcome(c, f, entry) {
        if let CompositionModel::Guided { message } = c {
            let spec = find_field(message_fields(message), f)->0;
            match spec.kind {
                FieldKind::Number { .. } => {
                    let v = parsed_u16(trim(entry))->0;
                    assert forall|g: FieldId| g != f implies #[trigger] field_reading(
                        with_number(message, f, v),
                        g,
                    ) == field_reading(message, g) by {
                        lemma_with_number_touches_one_field(message, f, v, g);
                    }
                    lemma_with_number_touches_one_field(
                        message,
                        f,
                        v,
                        if f == FieldId::Payload { FieldId::Channel } else { FieldId::Payload },
                    );
                },
                FieldKind::Bytes => {
                    lemma_bytes_field_is_payload(message, f);
                },
            }
        }
    }
}

/// A hand-typed composition stored and rebuilt is the composition it was: the
/// bytes are stored exactly as typed, and they read back as the same message.
pub proof fn lemma_capture_then_rebuild_raw(bytes: Seq<u8>)
    requires
        raw_entry_outcome(bytes) is Ok,
    ensures
        raw_entry_outcome(bytes)->Ok_0 matches CompositionModel::Raw { bytes: stored, .. } && stored
            == bytes,
        rebuilt(captured(raw_entry_outcome(bytes)->Ok_0)) == Ok::<CompositionModel, FieldRefusal>(
            raw_entry_outcome(bytes)->Ok_0,
        ),
{
}

} // verus!
