//! What was sent, when, and whether it worked.
//!
//! Without a record, a send that failed silently and one that succeeded but was
//! ignored look identical; telling them apart is what a monitor is for.

use crate::ids::{SendRecordId, Timestamp};
use crate::message::MidiMessage;
use vstd::prelude::*;

verus! {

/// How a send turned out. "It worked" is a fact worth naming, not the absence
/// of a complaint.
#[derive(Debug, Clone, PartialEq, Eq)]
pub enum SendOutcome {
    /// The platform accepted the bytes: transmitted, and nothing more.
    Sent,
    /// The platform refused, and this is what it reported.
    Failed {
        /// What went wrong, in the platform's own words.
        detail: String,
    },
}

impl SendOutcome {
    /// A copy of this outcome.
    pub fn duplicate(&self) -> (o: Self)
        ensures
            match (o, *self) {
                (SendOutcome::Sent, SendOutcome::Sent) => true,
                (SendOutcome::Failed { detail: a }, SendOutcome::Failed { detail: b }) => a@ == b@,
                _ => false,
            },
    {
        match self {
            SendOutcome::Sent => SendOutcome::Sent,
            SendOutcome::Failed { detail } => SendOutcome::Failed { detail: detail.clone() },
        }
    }
}

/// One attempted send.
#[derive(Debug, Clone, PartialEq, Eq)]
pub struct SendRecord {
    /// Identity, so a re-send names the entry the user pointed at even after
    /// older entries have been evicted.
    pub id: SendRecordId,
    /// When the send was attempted.
    pub time: Timestamp,
    /// The target's name as it was at the time of the send, so the record still
    /// reads correctly after the device is unplugged.
    pub target: String,
    /// The interpretation, for the record's description column.
    pub message: MidiMessage,
    /// The bytes exactly as transmitted, so a re-send sends what was sent.
    pub bytes: Vec<u8>,
    /// Whether it worked, and why not if it did not.
    pub outcome: SendOutcome,
}

} // verus!
