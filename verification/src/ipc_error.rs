//! The error that crosses to the interface.
//!
//! Separate from [`CoreError`], which may change shape with the domain: this
//! one is a published contract the interface matches on. A variant tells the
//! interface which control to explain the failure at, and carries the value to
//! quote back. Hardware trouble is not a failed command but a state shown on
//! the rows it concerns, so it reaches here only when it leaked out of such a
//! path, and is then reported as a storage-style failure with its detail.

use crate::dto::{prefix_mode_dto, PrefixModeDto};
use crate::error::{error_text, CoreError};
use crate::filter::PrefixMode;
use vstd::prelude::*;

verus! {

/// A refused command, as the interface receives it.
#[derive(Debug, Clone)]
pub enum IpcError {
    /// A channel outside 1-16.
    ChannelOutOfRange { value: u8 },
    /// A retention limit outside the supported range.
    RetentionOutOfRange { value: u32 },
    /// A prefix entry holding a character that is not a hex digit.
    MalformedHexPrefix { entry: String },
    /// A prefix entry holding no hex digits.
    EmptyHexPrefix,
    /// A prefix rule whose prefix is already listed.
    DuplicatePrefixRule { prefix: String, existing_kind: PrefixModeDto },
    /// A prefix rule overlapping a listed rule of the opposite kind.
    ContradictoryPrefixRule {
        prefix: String,
        kind: PrefixModeDto,
        existing_prefix: String,
        existing_kind: PrefixModeDto,
    },
    /// A prefix that names no listed rule.
    UnknownPrefixRule { prefix: String },
    /// Hiding the last visible column.
    LastColumnVisible,
    /// A source id the catalogue does not hold.
    UnknownSource { id: u32 },
    /// A group id that names no group.
    UnknownGroup { id: String },
    /// Settings could not be kept, or another failure that has no control of
    /// its own to be explained at; `detail` says what happened.
    SettingsUnavailable { detail: String },
    /// The monitor could not be reached.
    MonitorUnavailable,
}

/// A width the interface can carry: saturated at the top of `u32`.
pub open spec fn narrowed(value: usize) -> u32 {
    if value <= u32::MAX {
        value as u32
    } else {
        u32::MAX
    }
}

/// Whether an interface error is the one a core error crosses as.
pub open spec fn crosses_as(e: CoreError, d: IpcError) -> bool {
    match e {
        CoreError::ChannelOutOfRange { value } => d == IpcError::ChannelOutOfRange { value },
        CoreError::RetentionOutOfRange { value } => d == IpcError::RetentionOutOfRange {
            value: narrowed(value),
        },
        CoreError::MalformedHexPrefix { entry } => d matches IpcError::MalformedHexPrefix {
            entry: x,
        } && x@ == entry@,
        CoreError::EmptyHexPrefix => d == IpcError::EmptyHexPrefix,
        CoreError::DuplicatePrefixRule { prefix, existing_kind } => d matches IpcError::DuplicatePrefixRule {
            prefix: p,
            existing_kind: k,
        } && p@ == prefix@ && k == prefix_mode_dto(existing_kind),
        CoreError::ContradictoryPrefixRule { prefix, kind, existing_prefix, existing_kind } => d matches IpcError::ContradictoryPrefixRule {
            prefix: p,
            kind: k,
            existing_prefix: q,
            existing_kind: j,
        } && p@ == prefix@ && k == prefix_mode_dto(kind) && q@ == existing_prefix@ && j
            == prefix_mode_dto(existing_kind),
        CoreError::UnknownPrefixRule { prefix } => d matches IpcError::UnknownPrefixRule {
            prefix: p,
        } && p@ == prefix@,
        CoreError::LastColumnVisible => d == IpcError::LastColumnVisible,
        CoreError::SettingsStorage { detail } => d matches IpcError::SettingsUnavailable {
            detail: x,
        } && x@ == detail@,
        CoreError::UnknownSource { id } => d == IpcError::UnknownSource { id: id@ },
        CoreError::PortUnavailable { name, detail } => d matches IpcError::SettingsUnavailable {
            detail: x,
        } && x@ == name@ + ": "@ + detail@,
        CoreError::MidiSystemUnavailable { detail } => d matches IpcError::SettingsUnavailable {
            detail: x,
        } && x@ == detail@,
        _ => d matches IpcError::SettingsUnavailable { detail: x } && x@ == error_text(e),
    }
}

impl IpcError {
    /// The interface error a core error crosses as.
    pub fn from_core(error: CoreError) -> (d: Self)
        ensures
            crosses_as(error, d),
    {
        let text = error.describe();
        match error {
            CoreError::ChannelOutOfRange { value } => IpcError::ChannelOutOfRange { value },
            CoreError::RetentionOutOfRange { value } => IpcError::RetentionOutOfRange {
                value: if value <= u32::MAX as usize {
                    value as u32
                } else {
                    u32::MAX
                },
            },
            CoreError::MalformedHexPrefix { entry } => IpcError::MalformedHexPrefix { entry },
            CoreError::EmptyHexPrefix => IpcError::EmptyHexPrefix,
            CoreError::DuplicatePrefixRule { prefix, existing_kind } => IpcError::DuplicatePrefixRule {
                prefix,
                existing_kind: mode_dto(existing_kind),
            },
            CoreError::ContradictoryPrefixRule { prefix, kind, existing_prefix, existing_kind } =>
                IpcError::ContradictoryPrefixRule {
                prefix,
                kind: mode_dto(kind),
                existing_prefix,
                existing_kind: mode_dto(existing_kind),
            },
            CoreError::UnknownPrefixRule { prefix } => IpcError::UnknownPrefixRule { prefix },
            CoreError::LastColumnVisible => IpcError::LastColumnVisible,
            CoreError::SettingsStorage { detail } => IpcError::SettingsUnavailable { detail },
            CoreError::UnknownSource { id } => IpcError::UnknownSource { id: id.get() },
            CoreError::PortUnavailable { name, detail } => {
                let mut joined = name;
                joined.append(": ");
                joined.append(detail.as_str());
                IpcError::SettingsUnavailable { detail: joined }
            },
            CoreError::MidiSystemUnavailable { detail } => IpcError::SettingsUnavailable { detail },
            _ => IpcError::SettingsUnavailable { detail: text },
        }
    }
}

/// A prefix mode as the interface names it.
fn mode_dto(mode: PrefixMode) -> (d: PrefixModeDto)
    ensures
        d == prefix_mode_dto(mode),
{
    match mode {
        PrefixMode::Include => PrefixModeDto::Include,
        PrefixMode::Exclude => PrefixModeDto::Exclude,
    }
}

} // verus!
