//! What the core needs from the outside world, and what the platform reports
//! about itself.
//!
//! The traits here are the seams the platform adapters plug into; this crate
//! never names a platform itself. The input side, whose callbacks are
//! thread-safe closures, is declared beside the adapters.

use crate::error::CoreError;
use crate::ids::{Arrival, PublishedName, TargetId, TickRate, Timestamp};
use crate::settings::PersistedSettings;
use crate::target::Target;
use vstd::prelude::*;

verus! {

/// How faithfully the platform delivers the bytes that were sent.
#[derive(Debug, Clone, PartialEq, Eq)]
pub enum ByteFidelity {
    /// Every byte arrives exactly as the device transmitted it.
    AsTransmitted,
    /// The platform reassembles what arrives; `detail` says how.
    Assembled {
        /// What the user should know about the reassembly.
        detail: String,
    },
}

/// Whether this platform can publish a MIDI source under a chosen name.
#[derive(Debug, Clone, PartialEq, Eq)]
pub enum PublicationSupport {
    /// It can.
    Supported,
    /// It cannot, and this is why.
    Unsupported {
        /// The reason, for the send screen.
        detail: String,
    },
}

/// What the platform can and cannot do, reported once at startup.
#[derive(Debug, Clone, PartialEq, Eq)]
pub struct PlatformCapabilities {
    /// Whether a source can be published.
    pub publication: PublicationSupport,
    /// How faithfully received bytes are delivered.
    pub byte_fidelity: ByteFidelity,
}

/// Whether the MIDI system itself could be reached.
#[derive(Debug, Clone, PartialEq, Eq)]
pub enum MidiSystemStatus {
    /// It could.
    Available,
    /// It could not, and this is what the platform reported.
    Unavailable {
        /// The platform's words.
        detail: String,
    },
}

impl ByteFidelity {
    /// A copy of this value.
    pub fn duplicate(&self) -> (b: Self)
        ensures
            match (b, *self) {
                (ByteFidelity::AsTransmitted, ByteFidelity::AsTransmitted) => true,
                (ByteFidelity::Assembled { detail: x }, ByteFidelity::Assembled { detail: y }) => x@
                    == y@,
                _ => false,
            },
    {
        match self {
            ByteFidelity::AsTransmitted => ByteFidelity::AsTransmitted,
            ByteFidelity::Assembled { detail } => ByteFidelity::Assembled { detail: detail.clone() },
        }
    }
}

impl PublicationSupport {
    /// A copy of this value.
    pub fn duplicate(&self) -> (p: Self)
        ensures
            match (p, *self) {
                (PublicationSupport::Supported, PublicationSupport::Supported) => true,
                (
                    PublicationSupport::Unsupported { detail: x },
                    PublicationSupport::Unsupported { detail: y },
                ) => x@ == y@,
                _ => false,
            },
    {
        match self {
            PublicationSupport::Supported => PublicationSupport::Supported,
            PublicationSupport::Unsupported { detail } => PublicationSupport::Unsupported {
                detail: detail.clone(),
            },
        }
    }
}

/// Where settings are kept between launches.
pub trait SettingsRepository: Send + Sync {
    /// Stores the settings.
    fn save(&self, settings: &PersistedSettings) -> Result<(), CoreError>;

    /// Reads the stored settings, or `None` when there are none.
    fn load(&self) -> Result<Option<PersistedSettings>, CoreError>;
}

/// The platform's MIDI output.
pub trait Transmitter: Send {
    /// The places that can be sent to now.
    fn targets(&self) -> Vec<Target>;

    /// Sends bytes to a target.
    fn transmit(&mut self, target: TargetId, bytes: &[u8]) -> Result<(), CoreError>;

    /// Publishes this application's source under a name.
    fn publish(&mut self, name: &PublishedName) -> Result<(), CoreError>;

    /// Withdraws the published source.
    fn unpublish(&mut self);
}

/// The clocks an arrival is read from.
pub trait Clock: Send + Sync {
    /// Wall-clock time now.
    fn now(&self) -> Timestamp;

    /// Both readings of this instant: wall clock and host clock.
    fn arrival(&self) -> Arrival;

    /// How many host-clock ticks pass in a second.
    fn tick_rate(&self) -> TickRate;
}

} // verus!
