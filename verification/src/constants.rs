//! Values fixed by the interface's layout and by the MIDI specification.

use vstd::prelude::*;

verus! {

/// Retention default: the window reads "Remember up to 1000 events" on a fresh
/// launch.
pub const DEFAULT_RETENTION_LIMIT: usize = 1000;

/// Lowest accepted retention limit. Retaining zero events would make the monitor
/// useless while looking merely empty.
pub const RETENTION_LIMIT_MIN: usize = 1;

/// Highest accepted retention limit, a stated promise of what is supported.
pub const RETENTION_LIMIT_MAX: usize = 100_000;

/// Lowest channel number as the user sees it (1-based).
pub const CHANNEL_MIN: u8 = 1;

/// Highest channel number as the user sees it (1-based).
pub const CHANNEL_MAX: u8 = 16;

/// Largest value a single MIDI data byte can carry.
pub const MAX_DATA_BYTE: u8 = 127;

/// Largest value a paired 14-bit MIDI quantity can carry.
pub const MAX_DATA_14: u16 = 16_383;

/// Milliseconds in a day, the modulus for a wall-clock timestamp.
pub const MILLIS_PER_DAY: u64 = 86_400_000;

/// Largest System Exclusive transfer retained in full.
pub const MAX_SYSEX_BYTES: usize = 65_536;

/// How many sends are remembered for the send screen's record.
pub const SEND_RECORD_LIMIT: usize = 200;

/// Longest name a saved request may carry, in characters.
pub const MAX_REQUEST_NAME_LEN: usize = 64;

/// Longest name the published source may carry, in characters.
pub const MAX_PUBLISHED_NAME_LEN: usize = 64;

/// The name the published source carries until the user chooses another.
pub const DEFAULT_PUBLISHED_NAME: &'static str = "MIDI Monitor";

/// The universal identity request, framing bytes included: the one System
/// Exclusive message that reliably provokes a reply.
pub const IDENTITY_REQUEST: [u8; 6] = [0xF0, 0x7E, 0x7F, 0x06, 0x01, 0xF7];

} // verus!
