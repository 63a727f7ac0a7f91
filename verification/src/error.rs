//! The core's error type.
//!
//! Every fallible operation in this crate returns `Result` with a variant that
//! names what went wrong and carries what the caller needs to respond. Each of
//! these failures is ordinary user input or an ordinary device event, never a
//! reason to stop.

use crate::filter::PrefixMode;
use crate::ids::SourceId;
use crate::text::{decimal, push_decimal, to_string};
use vstd::prelude::*;

verus! {

/// Something the core refused to do, and why.
#[derive(Debug, Clone, PartialEq, Eq)]
pub enum CoreError {
    /// A channel number outside 1-16 was supplied.
    ChannelOutOfRange { value: u8 },
    /// A retention limit outside the supported range was supplied.
    RetentionOutOfRange { value: usize },
    /// A hex prefix entry contained a character that is not a hex digit.
    MalformedHexPrefix { entry: String },
    /// A hex prefix entry held no hex digits at all.
    EmptyHexPrefix,
    /// A prefix rule was added whose prefix is already in the list.
    DuplicatePrefixRule { prefix: String, existing_kind: PrefixMode },
    /// A prefix rule was added that overlaps a listed rule of the opposite kind.
    ContradictoryPrefixRule {
        prefix: String,
        kind: PrefixMode,
        existing_prefix: String,
        existing_kind: PrefixMode,
    },
    /// A prefix arrived that names no rule in the list.
    UnknownPrefixRule { prefix: String },
    /// Hiding this column would leave the table with no columns at all.
    LastColumnVisible,
    /// Settings could not be read from or written to storage.
    SettingsStorage { detail: String },
    /// A source id arrived that the catalogue does not contain.
    UnknownSource { id: SourceId },
    /// A port exists but could not be opened for listening.
    PortUnavailable { name: String, detail: String },
    /// The MIDI system itself could not be reached.
    MidiSystemUnavailable { detail: String },
    /// A message was handed to the encoder that cannot be transmitted.
    UnsendableMessage { reason: String },
    /// Hand-typed bytes are not exactly one valid MIDI message.
    MalformedSendBytes { detail: String },
    /// A composition value was set outside the range its message permits.
    ValueOutOfRange { field: String, min: u16, max: u16 },
    /// A send was attempted with no target chosen.
    NoSendTarget,
    /// The chosen target is no longer among those the machine reports.
    UnknownTarget { name: String },
    /// The platform accepted neither the bytes nor the target.
    TransmitFailed { target: String, detail: String },
    /// This platform cannot publish a MIDI source at all.
    PublicationUnsupported { detail: String },
    /// The platform can publish a source, but this attempt did not succeed.
    PublicationFailed { detail: String },
    /// The name for the published source is empty or too long.
    MalformedPublicationName { max: usize },
    /// No request in the library carries that name.
    UnknownRequest { name: String },
    /// A saved request would take a name the library already holds.
    DuplicateRequestName { name: String },
    /// A built-in request cannot be renamed or deleted.
    BuiltInRequestImmutable { name: String },
    /// The name for a saved request is empty or too long.
    MalformedRequestName { max: usize },
    /// The composition does not carry the field that was set.
    UnknownField { field: String },
    /// No composable message carries that identifier.
    UnknownSendableKind { id: String },
    /// No send record carries that identifier.
    UnknownSendRecord,
    /// The platform reported a host-clock rate of zero ticks per second.
    UnusableTickRate,
}

/// The sentence that explains an error to the user.
pub open spec fn error_text(e: CoreError) -> Seq<char> {
    match e {
        CoreError::ChannelOutOfRange { value } => "channel "@ + decimal(value as nat) + " is outside the valid range 1-16"@,
        CoreError::RetentionOutOfRange { value } => "retention limit "@ + decimal(value as nat) + " is outside the supported range 1-100000"@,
        CoreError::MalformedHexPrefix { entry } => "'"@ + entry@ + "' is not a valid hexadecimal prefix"@,
        CoreError::EmptyHexPrefix => "a hexadecimal prefix cannot be empty"@,
        CoreError::DuplicatePrefixRule { prefix, .. } => "a rule for '"@ + prefix@ + "' is already in the list"@,
        CoreError::ContradictoryPrefixRule { prefix, existing_prefix, .. } => "'"@ + prefix@ + "' overlaps the existing rule for '"@ + existing_prefix@ + "', which has the opposite effect"@,
        CoreError::UnknownPrefixRule { prefix } => "no rule for '"@ + prefix@ + "' is in the list"@,
        CoreError::LastColumnVisible => "at least one column must remain visible"@,
        CoreError::SettingsStorage { detail } => "settings storage failed: "@ + detail@,
        CoreError::UnknownSource { id } => "no source with id "@ + decimal(id@ as nat),
        CoreError::PortUnavailable { name, detail } => "could not open '"@ + name@ + "': "@ + detail@,
        CoreError::MidiSystemUnavailable { detail } => "the MIDI system is unavailable: "@ + detail@,
        CoreError::UnsendableMessage { reason } => "this message cannot be transmitted: "@ + reason@,
        CoreError::MalformedSendBytes { detail } => "those bytes are not a single valid MIDI message: "@ + detail@,
        CoreError::ValueOutOfRange { field, min, max } => field@ + " must be between "@ + decimal(min as nat) + " and "@ + decimal(max as nat),
        CoreError::NoSendTarget => "choose where to send before sending"@,
        CoreError::UnknownTarget { name } => name@ + " is no longer available to send to"@,
        CoreError::TransmitFailed { target, detail } => "could not send to "@ + target@ + ": "@ + detail@,
        CoreError::PublicationUnsupported { detail } => detail@,
        CoreError::PublicationFailed { detail } => "the source could not be published: "@ + detail@,
        CoreError::MalformedPublicationName { max } => "a name for the published source must be 1 to "@ + decimal(max as nat) + " characters"@,
        CoreError::UnknownRequest { name } => "there is no request called "@ + name@,
        CoreError::DuplicateRequestName { name } => "a request called "@ + name@ + " already exists"@,
        CoreError::BuiltInRequestImmutable { name } => name@ + " is a built-in request and cannot be changed"@,
        CoreError::MalformedRequestName { max } => "a request name must be 1 to "@ + decimal(max as nat) + " characters"@,
        CoreError::UnknownField { field } => "this message has no "@ + field@ + " value"@,
        CoreError::UnknownSendableKind { id } => "there is no message type called "@ + id@,
        CoreError::UnknownSendRecord => "that send is no longer in the record"@,
        CoreError::UnusableTickRate => "the platform reported an unusable host clock rate"@,
    }
}

impl CoreError {
    /// The sentence that explains this error to the user.
    pub fn describe(&self) -> (s: String)
        ensures
            s@ == error_text(*self),
    {
        let s = match self {
            CoreError::ChannelOutOfRange { value } => {
                let mut s = to_string("channel ");
                push_decimal(&mut s, *value as u128);
                s.append(" is outside the valid range 1-16");
                s
            },
            CoreError::RetentionOutOfRange { value } => {
                let mut s = to_string("retention limit ");
                push_decimal(&mut s, *value as u128);
                s.append(" is outside the supported range 1-100000");
                s
            },
            CoreError::MalformedHexPrefix { entry } => {
                let mut s = to_string("'");
                s.append(entry.as_str());
                s.append("' is not a valid hexadecimal prefix");
                s
            },
            CoreError::EmptyHexPrefix => {
                to_string("a hexadecimal prefix cannot be empty")
            },
            CoreError::DuplicatePrefixRule { prefix, .. } => {
                let mut s = to_string("a rule for '");
                s.append(prefix.as_str());
                s.append("' is already in the list");
                s
            },
            CoreError::ContradictoryPrefixRule { prefix, existing_prefix, .. } => {
                let mut s = to_string("'");
                s.append(prefix.as_str());
                s.append("' overlaps the existing rule for '");
                s.append(existing_prefix.as_str());
                s.append("', which has the opposite effect");
                s
            },
            CoreError::UnknownPrefixRule { prefix } => {
                let mut s = to_string("no rule for '");
                s.append(prefix.as_str());
                s.append("' is in the list");
                s
            },
            CoreError::LastColumnVisible => {
                to_string("at least one column must remain visible")
            },
            CoreError::SettingsStorage { detail } => {
                let mut s = to_string("settings storage failed: ");
                s.append(detail.as_str());
                s
            },
            CoreError::UnknownSource { id } => {
                let mut s = to_string("no source with id ");
                push_decimal(&mut s, id.get() as u128);
                s
            },
            CoreError::PortUnavailable { name, detail } => {
                let mut s = to_string("could not open '");
                s.append(name.as_str());
                s.append("': ");
                s.append(detail.as_str());
                s
            },
            CoreError::MidiSystemUnavailable { detail } => {
                let mut s = to_string("the MIDI system is unavailable: ");
                s.append(detail.as_str());
                s
            },
            CoreError::UnsendableMessage { reason } => {
                let mut s = to_string("this message cannot be transmitted: ");
                s.append(reason.as_str());
                s
            },
            CoreError::MalformedSendBytes { detail } => {
                let mut s = to_string("those bytes are not a single valid MIDI message: ");
                s.append(detail.as_str());
                s
            },
            CoreError::ValueOutOfRange { field, min, max } => {
                let mut s = to_string(field.as_str());
                s.append(" must be between ");
                push_decimal(&mut s, *min as u128);
                s.append(" and ");
                push_decimal(&mut s, *max as u128);
                s
            },
            CoreError::NoSendTarget => {
                to_string("choose where to send before sending")
            },
            CoreError::UnknownTarget { name } => {
                let mut s = to_string(name.as_str());
                s.append(" is no longer available to send to");
                s
            },
            CoreError::TransmitFailed { target, detail } => {
                let mut s = to_string("could not send to ");
                s.append(target.as_str());
                s.append(": ");
                s.append(detail.as_str());
                s
            },
            CoreError::PublicationUnsupported { detail } => {
                to_string(detail.as_str())
            },
            CoreError::PublicationFailed { detail } => {
                let mut s = to_string("the source could not be published: ");
                s.append(detail.as_str());
                s
            },
            CoreError::MalformedPublicationName { max } => {
                let mut s = to_string("a name for the published source must be 1 to ");
                push_decimal(&mut s, *max as u128);
                s.append(" characters");
                s
            },
            CoreError::UnknownRequest { name } => {
                let mut s = to_string("there is no request called ");
                s.append(name.as_str());
                s
            },
            CoreError::DuplicateRequestName { name } => {
                let mut s = to_string("a request called ");
                s.append(name.as_str());
                s.append(" already exists");
                s
            },
            CoreError::BuiltInRequestImmutable { name } => {
                let mut s = to_string(name.as_str());
                s.append(" is a built-in request and cannot be changed");
                s
            },
            CoreError::MalformedRequestName { max } => {
                let mut s = to_string("a request name must be 1 to ");
                push_decimal(&mut s, *max as u128);
                s.append(" characters");
                s
            },
            CoreError::UnknownField { field } => {
                let mut s = to_string("this message has no ");
                s.append(field.as_str());
                s.append(" value");
                s
            },
            CoreError::UnknownSendableKind { id } => {
                let mut s = to_string("there is no message type called ");
                s.append(id.as_str());
                s
            },
            CoreError::UnknownSendRecord => {
                to_string("that send is no longer in the record")
            },
            CoreError::UnusableTickRate => {
                to_string("the platform reported an unusable host clock rate")
            },
        };
        assert(s@ =~= error_text(*self));
        s
    }
}

} // verus!
