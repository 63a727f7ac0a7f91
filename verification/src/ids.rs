//! Newtypes for the values that would otherwise all be bare integers or strings.
//!
//! Wrapping each one makes a mix-up impossible and gives every invariant exactly
//! one place to be checked: the constructor.

use crate::constants::{
    CHANNEL_MAX, CHANNEL_MIN, DEFAULT_RETENTION_LIMIT, MAX_DATA_14, MAX_DATA_BYTE,
    MAX_PUBLISHED_NAME_LEN, MAX_REQUEST_NAME_LEN, MILLIS_PER_DAY, RETENTION_LIMIT_MAX,
    RETENTION_LIMIT_MIN,
};
use crate::error::CoreError;
use crate::text::{
    char_hex_value, char_is_hex_digit, char_is_whitespace, digit_char, digit_str, hex_value,
    is_hex_digit, is_whitespace, padded_decimal, push_padded_decimal, trim, trimmed,
    all_ascii_digits, digits_value, lemma_padded_decimal_digits, lemma_small_decimal_len,
};
use vstd::prelude::*;

verus! {

broadcast use vstd::string::group_string_axioms;

/// Identifies one monitored source for the lifetime of the process.
#[derive(Debug, Clone, Copy, PartialEq, Eq, Structural, Hash, PartialOrd, Ord)]
pub struct SourceId(pub(crate) u32);

impl SourceId {
    /// The raw discriminator.
    pub open(crate) spec fn view(&self) -> u32 {
        self.0
    }

    /// Wraps a raw discriminator produced by the source catalogue.
    pub fn new(raw: u32) -> (id: Self)
        ensures
            id@ == raw,
    {
        Self(raw)
    }

    /// The underlying discriminator, for crossing the IPC boundary.
    pub fn get(self) -> (raw: u32)
        ensures
            raw == self@,
    {
        self.0
    }
}

/// The identity of a source, as a value that can be compared in contracts.
pub enum SourceKeyModel {
    Endpoint(i32),
    DeviceInterface(Seq<char>),
    PortName(Seq<char>),
    VirtualDestination,
}

/// The identity of a source that outlives the session.
#[derive(Debug, Clone, Eq, Hash)]
pub enum SourceKey {
    /// A real endpoint, keyed on the identifier the operating system assigns it.
    Endpoint(i32),
    /// A real port, keyed on the device-interface string the system reports.
    DeviceInterface(String),
    /// A real port that the system offers no identity for beyond its name.
    PortName(String),
    /// The endpoint this application publishes for other programs to send to.
    VirtualDestination,
}

impl SourceKey {
    /// The key as a comparable value.
    pub open spec fn view(&self) -> SourceKeyModel {
        match self {
            SourceKey::Endpoint(id) => SourceKeyModel::Endpoint(*id),
            SourceKey::DeviceInterface(s) => SourceKeyModel::DeviceInterface(s@),
            SourceKey::PortName(s) => SourceKeyModel::PortName(s@),
            SourceKey::VirtualDestination => SourceKeyModel::VirtualDestination,
        }
    }

    /// A copy of this key.
    pub fn duplicate(&self) -> (r: Self)
        ensures
            r@ == self@,
    {
        match self {
            SourceKey::Endpoint(id) => SourceKey::Endpoint(*id),
            SourceKey::DeviceInterface(s) => SourceKey::DeviceInterface(s.clone()),
            SourceKey::PortName(s) => SourceKey::PortName(s.clone()),
            SourceKey::VirtualDestination => SourceKey::VirtualDestination,
        }
    }
}

impl PartialEq for SourceKey {
    fn eq(&self, other: &Self) -> (r: bool) {
        match (self, other) {
            (SourceKey::Endpoint(a), SourceKey::Endpoint(b)) => *a == *b,
            (SourceKey::DeviceInterface(a), SourceKey::DeviceInterface(b)) => a.eq(b),
            (SourceKey::PortName(a), SourceKey::PortName(b)) => a.eq(b),
            (SourceKey::VirtualDestination, SourceKey::VirtualDestination) => true,
            _ => false,
        }
    }
}

impl vstd::std_specs::cmp::PartialEqSpecImpl for SourceKey {
    open spec fn obeys_eq_spec() -> bool {
        true
    }

    open spec fn eq_spec(&self, other: &Self) -> bool {
        self@ == other@
    }
}

/// The two named, collapsible groups of the Sources panel.
#[derive(Debug, Clone, Copy, PartialEq, Eq, Structural, Hash)]
pub enum SourceGroupId {
    /// `MIDI sources`: the input ports being watched.
    MidiSources,
    /// `Spy on output to destinations`: traffic observed on the way out.
    SpyOnOutput,
}

impl SourceGroupId {
    /// Every group, in top-to-bottom order.
    pub const ALL: [SourceGroupId; 2] = [SourceGroupId::MidiSources, SourceGroupId::SpyOnOutput];

    /// The group's label, as the Sources panel shows it.
    pub fn label(self) -> (s: &'static str)
        ensures
            s@ == match self {
                SourceGroupId::MidiSources => "MIDI sources"@,
                SourceGroupId::SpyOnOutput => "Spy on output to destinations"@,
            },
    {
        match self {
            SourceGroupId::MidiSources => "MIDI sources",
            SourceGroupId::SpyOnOutput => "Spy on output to destinations",
        }
    }
}

/// A monotonically increasing identifier for one observed event.
#[derive(Debug, Clone, Copy, PartialEq, Eq, Structural, PartialOrd, Ord, Hash)]
pub struct EventId(pub(crate) u32);

impl EventId {
    /// The first id handed out after startup.
    pub fn first() -> (id: Self)
        ensures
            id@ == 0,
    {
        EventId(0)
    }

    /// The raw value.
    pub open(crate) spec fn view(&self) -> u32 {
        self.0
    }

    /// The next id in sequence, saturating rather than wrapping so ordering is
    /// never broken.
    pub fn next(self) -> (r: Self)
        ensures
            r@ == if self@ < u32::MAX { (self@ + 1) as u32 } else { u32::MAX },
            r@ >= self@,
    {
        EventId(self.0.saturating_add(1))
    }

    /// The underlying value, for crossing the IPC boundary.
    pub fn get(self) -> (r: u32)
        ensures
            r == self@,
    {
        self.0
    }
}

/// A MIDI channel as the user sees it: 1 through 16.
#[derive(Debug, Clone, Copy, PartialEq, Eq, Structural, Hash)]
pub struct ChannelNumber(pub(crate) u8);

impl ChannelNumber {
    #[verifier::type_invariant]
    spec fn in_range(self) -> bool {
        CHANNEL_MIN <= self.0 && self.0 <= CHANNEL_MAX
    }

    /// The 1-based number.
    pub open(crate) spec fn view(&self) -> u8 {
        self.0
    }

    /// Validates a user-facing channel number.
    pub fn new(value: u8) -> (r: Result<Self, CoreError>)
        ensures
            match r {
                Ok(channel) => 1 <= value <= 16 && channel@ == value,
                Err(e) => !(1 <= value <= 16) && e == CoreError::ChannelOutOfRange { value },
            },
    {
        if CHANNEL_MIN <= value && value <= CHANNEL_MAX {
            Ok(Self(value))
        } else {
            Err(CoreError::ChannelOutOfRange { value })
        }
    }

    /// Builds a channel from a status byte's low nibble, which cannot fail.
    pub fn from_wire_nibble(nibble: u8) -> (channel: Self)
        ensures
            channel@ == (nibble & 0x0F) + 1,
    {
        proof {
            assert(nibble & 0x0F <= 15) by (bit_vector);
        }
        Self((nibble & 0x0F) + 1)
    }

    /// The 0-based nibble to place in a status byte.
    pub fn to_wire_nibble(self) -> (nibble: u8)
        ensures
            nibble == self@ - 1,
            nibble < 16,
    {
        proof {
            use_type_invariant(&self);
        }
        self.0 - 1
    }

    /// The 1-based number to display in the Chan column.
    pub fn get(self) -> (value: u8)
        ensures
            value == self@,
            1 <= value <= 16,
    {
        proof {
            use_type_invariant(&self);
        }
        self.0
    }
}

/// How many events the monitor retains before discarding the oldest.
#[derive(Debug, Clone, Copy, PartialEq, Eq, Structural)]
pub struct RetentionLimit(pub(crate) usize);

impl RetentionLimit {
    #[verifier::type_invariant]
    spec fn in_range(self) -> bool {
        RETENTION_LIMIT_MIN <= self.0 && self.0 <= RETENTION_LIMIT_MAX
    }

    /// The limit as a count.
    pub open(crate) spec fn view(&self) -> usize {
        self.0
    }

    /// Validates a retention limit against the supported range, 1 to 100000.
    pub fn new(value: usize) -> (r: Result<Self, CoreError>)
        ensures
            match r {
                Ok(limit) => 1 <= value <= 100_000 && limit@ == value,
                Err(e) => !(1 <= value <= 100_000) && e == CoreError::RetentionOutOfRange { value },
            },
    {
        if RETENTION_LIMIT_MIN <= value && value <= RETENTION_LIMIT_MAX {
            Ok(Self(value))
        } else {
            Err(CoreError::RetentionOutOfRange { value })
        }
    }

    /// The limit as a count.
    pub fn get(self) -> (value: usize)
        ensures
            value == self@,
            1 <= value <= 100_000,
    {
        proof {
            use_type_invariant(&self);
        }
        self.0
    }
}

impl Default for RetentionLimit {
    /// The `1000` shown before the user touches the field.
    fn default() -> (r: Self)
        ensures
            r@ == 1000,
    {
        Self(DEFAULT_RETENTION_LIMIT)
    }
}

/// A seven-bit MIDI data value: note number, velocity, controller value, and so on.
#[derive(Debug, Clone, Copy, PartialEq, Eq, Structural, PartialOrd, Ord, Hash)]
pub struct DataByte(pub(crate) u8);

impl DataByte {
    #[verifier::type_invariant]
    spec fn in_range(self) -> bool {
        self.0 <= MAX_DATA_BYTE
    }

    /// The lowest data value.
    pub fn zero() -> (b: Self)
        ensures
            b@ == 0,
    {
        DataByte(0)
    }

    /// The highest data value, `127`.
    pub fn max_value() -> (b: Self)
        ensures
            b@ == 127,
    {
        DataByte(127)
    }

    /// The value, 0-127.
    pub open(crate) spec fn view(&self) -> u8 {
        self.0
    }

    /// Builds a data value by discarding the high bit.
    pub fn from_masked(raw: u8) -> (b: Self)
        ensures
            b@ == raw & 0x7F,
            b@ <= 127,
    {
        proof {
            assert(raw & 0x7F <= 127) by (bit_vector);
        }
        Self(raw & MAX_DATA_BYTE)
    }

    /// The value, 0-127.
    pub fn get(self) -> (value: u8)
        ensures
            value == self@,
            value <= 127,
    {
        proof {
            use_type_invariant(&self);
        }
        self.0
    }
}

/// A fourteen-bit MIDI quantity carried as two data bytes.
#[derive(Debug, Clone, Copy, PartialEq, Eq, Structural, PartialOrd, Ord, Hash)]
pub struct Data14(pub(crate) u16);

/// The least significant seven bits of a 14-bit value.
pub open spec fn lsb7(v: u16) -> u8 {
    (v & 0x7F) as u8
}

/// The most significant seven bits of a 14-bit value.
pub open spec fn msb7(v: u16) -> u8 {
    ((v >> 7) & 0x7F) as u8
}

/// The 14-bit value a pair of data bytes carries, least significant first.
pub open spec fn combine14(least: u8, most: u8) -> u16 {
    ((least & 0x7F) as u16) | (((most & 0x7F) as u16) << 7)
}

impl Data14 {
    #[verifier::type_invariant]
    spec fn in_range(self) -> bool {
        self.0 <= MAX_DATA_14
    }

    /// The combined value, 0-16383.
    pub open(crate) spec fn view(&self) -> u16 {
        self.0
    }

    /// Builds a 14-bit value by discarding the two high bits.
    pub fn from_masked(raw: u16) -> (v: Self)
        ensures
            v@ == raw & 0x3FFF,
            v@ <= 16383,
    {
        proof {
            assert(raw & 0x3FFF <= 16383) by (bit_vector);
        }
        Self(raw & MAX_DATA_14)
    }

    /// Splits into the wire pair `(least significant, most significant)`.
    pub fn to_wire_pair(self) -> (pair: (u8, u8))
        ensures
            pair.0 == lsb7(self@),
            pair.1 == msb7(self@),
            pair.0 <= 127,
            pair.1 <= 127,
            self@ <= 16383 ==> combine14(pair.0, pair.1) == self@,
    {
        proof {
            use_type_invariant(&self);
            let v = self.0;
            assert((v & 0x7F) as u8 <= 127) by (bit_vector);
            assert(((v >> 7) & 0x7F) as u8 <= 127) by (bit_vector);
            assert(v <= 16383 ==> ((((v & 0x7F) as u8) & 0x7F) as u16) | ((((((v >> 7) & 0x7F)
                as u8) & 0x7F) as u16) << 7) == v) by (bit_vector);
        }
        ((self.0 & 0x7F) as u8, ((self.0 >> 7) & 0x7F) as u8)
    }

    /// The combined value, 0-16383.
    pub fn get(self) -> (value: u16)
        ensures
            value == self@,
            value <= 16383,
    {
        proof {
            use_type_invariant(&self);
        }
        self.0
    }
}

/// `HH:MM:SS.mmm` for a count of milliseconds since midnight.
pub open spec fn clock_display(millis: nat) -> Seq<char> {
    let ms = millis % 1000;
    let total_seconds = millis / 1000;
    let seconds = total_seconds % 60;
    let minutes = (total_seconds / 60) % 60;
    let hours = (total_seconds / 3600) % 24;
    padded_decimal(hours, 2) + seq![':'] + padded_decimal(minutes, 2) + seq![':']
        + padded_decimal(seconds, 2) + seq!['.'] + padded_decimal(ms, 3)
}

/// Wall-clock arrival time, as milliseconds since local midnight.
#[derive(Debug, Clone, Copy, PartialEq, Eq, Structural, PartialOrd, Ord)]
pub struct Timestamp(pub(crate) u64);

impl Timestamp {
    /// Milliseconds since midnight.
    pub open(crate) spec fn view(&self) -> u64 {
        self.0
    }

    /// Builds a timestamp, wrapping at the end of the day.
    pub fn from_millis_since_midnight(millis: u64) -> (t: Self)
        ensures
            t@ == millis % 86_400_000,
    {
        Self(millis % MILLIS_PER_DAY)
    }

    /// Formats as `HH:MM:SS.mmm`.
    pub fn to_display(self) -> (s: String)
        ensures
            s@ == clock_display(self@ as nat),
    {
        let millis = self.0 % 1000;
        let total_seconds = self.0 / 1000;
        let seconds = total_seconds % 60;
        let minutes = (total_seconds / 60) % 60;
        let hours = (total_seconds / 3600) % 24;
        let mut s = String::new();
        push_padded_decimal(&mut s, hours as u128, 2);
        proof {
            reveal_strlit(":");
            reveal_strlit(".");
        }
        s.append(":");
        push_padded_decimal(&mut s, minutes as u128, 2);
        s.append(":");
        push_padded_decimal(&mut s, seconds as u128, 2);
        s.append(".");
        push_padded_decimal(&mut s, millis as u128, 3);
        assert(s@ =~= clock_display(self@ as nat));
        s
    }
}

/// A host-clock reading, in the platform's own ticks.
#[derive(Debug, Clone, Copy, PartialEq, Eq, Structural, PartialOrd, Ord)]
pub struct HostTicks(pub(crate) u64);

impl HostTicks {
    /// The tick count.
    pub open(crate) spec fn view(&self) -> u64 {
        self.0
    }

    /// Wraps a raw tick count.
    pub fn new(ticks: u64) -> (t: Self)
        ensures
            t@ == ticks,
    {
        Self(ticks)
    }

    /// The tick count.
    pub fn get(self) -> (ticks: u64)
        ensures
            ticks == self@,
    {
        self.0
    }
}

/// The host-clock half of an arrival.
#[derive(Debug, Clone, Copy, PartialEq, Eq, Structural)]
pub enum HostTime {
    /// The source stamped the message with this reading.
    Stamped(HostTicks),
    /// The source stamped zero, meaning "now"; this is when it was received.
    ZeroMeaningNow { received: HostTicks },
}

/// Both readings of the moment an event arrived, taken together.
#[derive(Debug, Clone, Copy, PartialEq, Eq, Structural)]
pub struct Arrival {
    /// Wall-clock time, for the `Clock time` format.
    pub wall: Timestamp,
    /// Host-clock time, for the `Host time` formats.
    pub host: HostTime,
}

impl Arrival {
    /// Pairs the two readings of one instant.
    pub fn new(wall: Timestamp, host: HostTime) -> (a: Self)
        ensures
            a.wall == wall,
            a.host == host,
    {
        Self { wall, host }
    }
}

/// How many host-clock ticks pass in a second. Never zero.
#[derive(Debug, Clone, Copy, PartialEq, Eq, Structural)]
pub struct TickRate(pub(crate) u64);

impl TickRate {
    #[verifier::type_invariant]
    spec fn nonzero(self) -> bool {
        self.0 > 0
    }

    /// A clock that ticks once per nanosecond.
    pub fn nanosecond() -> (rate: Self)
        ensures
            rate@ == 1_000_000_000,
    {
        TickRate(1_000_000_000)
    }

    /// Ticks per second.
    pub open(crate) spec fn view(&self) -> u64 {
        self.0
    }

    /// Validates a rate reported by the platform.
    pub fn new(ticks_per_second: u64) -> (r: Result<Self, CoreError>)
        ensures
            match r {
                Ok(rate) => ticks_per_second > 0 && rate@ == ticks_per_second,
                Err(e) => ticks_per_second == 0 && e == CoreError::UnusableTickRate,
            },
    {
        if ticks_per_second == 0 {
            Err(CoreError::UnusableTickRate)
        } else {
            Ok(Self(ticks_per_second))
        }
    }

    /// Ticks per second.
    pub fn get(self) -> (r: u64)
        ensures
            r == self@,
            r > 0,
    {
        proof {
            use_type_invariant(&self);
        }
        self.0
    }

    /// Converts a tick count to nanoseconds, rounding down.
    pub fn to_nanoseconds(self, ticks: u64) -> (nanos: u128)
        ensures
            self@ > 0,
            nanos == (ticks as nat * 1_000_000_000) / (self@ as nat),
    {
        proof {
            use_type_invariant(&self);
            assert(ticks as nat * 1_000_000_000 <= u64::MAX as nat * 1_000_000_000) by (nonlinear_arith);
        }
        (ticks as u128) * 1_000_000_000u128 / (self.0 as u128)
    }
}

/// A normalised hex prefix: uppercase digits, nothing else.
pub open spec fn is_upper_hex(c: char) -> bool {
    ('0' <= c && c <= '9') || ('A' <= c && c <= 'F')
}

/// Whether every character of an entry is a hex digit or white space.
pub open spec fn only_hex_and_space(s: Seq<char>) -> bool {
    forall|i: int| 0 <= i < s.len() ==> is_whitespace(#[trigger] s[i]) || is_hex_digit(s[i])
}

/// The entry's hex digits, uppercased, with white space removed.
pub open spec fn normalise_hex(s: Seq<char>) -> Seq<char>
    decreases s.len(),
{
    if s.len() == 0 {
        Seq::empty()
    } else if is_whitespace(s.last()) {
        normalise_hex(s.drop_last())
    } else {
        normalise_hex(s.drop_last()).push(digit_char(hex_value(s.last()) as nat))
    }
}

/// A validated hexadecimal prefix to match against an event's raw bytes.
#[derive(Debug, Clone, Eq)]
pub struct HexPrefix(pub(crate) String);

impl HexPrefix {
    /// The normalised nibble string.
    pub open(crate) spec fn view(&self) -> Seq<char> {
        self.0@
    }

    /// Parses and normalises a user-entered prefix: white space is dropped and
    /// digits are uppercased, so `b0 07`, `B007`, and `B0 07` are one prefix.
    pub fn parse(entry: &str) -> (r: Result<Self, CoreError>)
        ensures
            match r {
                Ok(p) => only_hex_and_space(entry@) && normalise_hex(entry@).len() > 0
                    && p@ == normalise_hex(entry@),
                Err(CoreError::MalformedHexPrefix { entry: e }) => !only_hex_and_space(entry@)
                    && e@ == entry@,
                Err(e) => only_hex_and_space(entry@) && normalise_hex(entry@).len() == 0
                    && e == CoreError::EmptyHexPrefix,
            },
    {
        let mut normalised = String::new();
        let mut count: usize = 0;
        for c in it: entry.chars()
            invariant
                it.seq() == entry@,
                only_hex_and_space(entry@.take(it.index() as int)),
                normalised@ == normalise_hex(entry@.take(it.index() as int)),
                count == 0 <==> normalised@.len() == 0,
                forall|i: int| 0 <= i < normalised@.len() ==> is_upper_hex(#[trigger] normalised@[i]),
        {
            let ghost prefix = entry@.take(it.index() as int);
            proof {
                assert(entry@.take(it.index() + 1).drop_last() =~= prefix);
                assert(entry@.take(it.index() + 1).last() == c);
            }
            if char_is_whitespace(c) {
                proof {
                    assert(only_hex_and_space(entry@.take(it.index() + 1)));
                }
            } else {
                if !char_is_hex_digit(c) {
                    proof {
                        assert(entry@[it.index() as int] == c);
                    }
                    return Err(CoreError::MalformedHexPrefix { entry: entry.to_owned() });
                }
                let v = char_hex_value(c);
                normalised.append(digit_str(v));
                count = 1;
                proof {
                    assert(only_hex_and_space(entry@.take(it.index() + 1)));
                    assert(normalised@ =~= normalise_hex(entry@.take(it.index() + 1)));
                }
            }
        }
        proof {
            assert(entry@.take(entry@.len() as int) =~= entry@);
        }
        if count == 0 {
            return Err(CoreError::EmptyHexPrefix);
        }
        Ok(Self(normalised))
    }

    /// The normalised nibble string, for prefix comparison and for redisplay.
    pub fn as_str(&self) -> (s: &str)
        ensures
            s@ == self@,
    {
        self.0.as_str()
    }

    /// A copy of this prefix.
    pub fn duplicate(&self) -> (r: Self)
        ensures
            r@ == self@,
    {
        HexPrefix(self.0.clone())
    }
}

impl PartialEq for HexPrefix {
    fn eq(&self, other: &Self) -> (r: bool) {
        self.0 == other.0
    }
}

impl vstd::std_specs::cmp::PartialEqSpecImpl for HexPrefix {
    open spec fn obeys_eq_spec() -> bool {
        true
    }

    open spec fn eq_spec(&self, other: &Self) -> bool {
        self@ == other@
    }
}

/// Identifies one send target for the lifetime of the process.
#[derive(Debug, Clone, Copy, PartialEq, Eq, Structural, Hash, PartialOrd, Ord)]
pub struct TargetId(pub(crate) u32);

impl TargetId {
    /// The raw discriminator.
    pub open(crate) spec fn view(&self) -> u32 {
        self.0
    }

    /// Wraps a raw discriminator produced while scanning targets.
    pub fn new(raw: u32) -> (id: Self)
        ensures
            id@ == raw,
    {
        Self(raw)
    }

    /// The underlying discriminator, for crossing the IPC boundary.
    pub fn get(self) -> (raw: u32)
        ensures
            raw == self@,
    {
        self.0
    }
}

/// The identity of a send target, as a value that can be compared in contracts.
pub enum TargetKeyModel {
    Endpoint(i32),
    DeviceName(Seq<char>),
    PublishedSource,
}

/// The identity of a send target that outlives the session.
#[derive(Debug, Clone, Eq, Hash)]
pub enum TargetKey {
    /// A CoreMIDI endpoint, keyed by its stable unique identifier.
    Endpoint(i32),
    /// An output device, keyed by the name the platform reports.
    DeviceName(String),
    /// This application's own published source.
    PublishedSource,
}

impl TargetKey {
    /// The key as a comparable value.
    pub open spec fn view(&self) -> TargetKeyModel {
        match self {
            TargetKey::Endpoint(id) => TargetKeyModel::Endpoint(*id),
            TargetKey::DeviceName(s) => TargetKeyModel::DeviceName(s@),
            TargetKey::PublishedSource => TargetKeyModel::PublishedSource,
        }
    }

    /// A copy of this key.
    pub fn duplicate(&self) -> (r: Self)
        ensures
            r@ == self@,
    {
        match self {
            TargetKey::Endpoint(id) => TargetKey::Endpoint(*id),
            TargetKey::DeviceName(s) => TargetKey::DeviceName(s.clone()),
            TargetKey::PublishedSource => TargetKey::PublishedSource,
        }
    }
}

impl PartialEq for TargetKey {
    fn eq(&self, other: &Self) -> (r: bool) {
        match (self, other) {
            (TargetKey::Endpoint(a), TargetKey::Endpoint(b)) => *a == *b,
            (TargetKey::DeviceName(a), TargetKey::DeviceName(b)) => a.eq(b),
            (TargetKey::PublishedSource, TargetKey::PublishedSource) => true,
            _ => false,
        }
    }
}

impl vstd::std_specs::cmp::PartialEqSpecImpl for TargetKey {
    open spec fn obeys_eq_spec() -> bool {
        true
    }

    open spec fn eq_spec(&self, other: &Self) -> bool {
        self@ == other@
    }
}

/// Identifies one entry in the session's record of sends.
#[derive(Debug, Clone, Copy, PartialEq, Eq, Structural, Hash, PartialOrd, Ord)]
pub struct SendRecordId(pub(crate) u32);

impl SendRecordId {
    /// The raw discriminator.
    pub open(crate) spec fn view(&self) -> u32 {
        self.0
    }

    /// Wraps a raw discriminator minted when a send is recorded.
    pub fn new(raw: u32) -> (id: Self)
        ensures
            id@ == raw,
    {
        Self(raw)
    }

    /// The underlying discriminator, for crossing the IPC boundary.
    pub fn get(self) -> (raw: u32)
        ensures
            raw == self@,
    {
        self.0
    }
}

/// Whether a trimmed name is acceptable: not empty, and no longer than `max`
/// characters.
pub open spec fn acceptable_name(entry: Seq<char>, max: nat) -> bool {
    trim(entry).len() > 0 && trim(entry).len() <= max
}

/// The name of a request in the library, and its identity.
#[derive(Debug, Clone, Eq, Hash)]
pub struct RequestName(pub(crate) String);

impl RequestName {
    /// The name's characters.
    pub open(crate) spec fn view(&self) -> Seq<char> {
        self.0@
    }

    /// Parses and trims a user-entered request name, refusing one that is empty
    /// once trimmed or longer than 64 characters.
    pub fn parse(entry: &str) -> (r: Result<Self, CoreError>)
        ensures
            match r {
                Ok(name) => acceptable_name(entry@, 64) && name@ == trim(entry@),
                Err(e) => !acceptable_name(entry@, 64) && e == CoreError::MalformedRequestName {
                    max: 64,
                },
            },
    {
        let name = trimmed(entry);
        let len = name.as_str().unicode_len();
        if len == 0 || len > MAX_REQUEST_NAME_LEN {
            return Err(CoreError::MalformedRequestName { max: MAX_REQUEST_NAME_LEN });
        }
        Ok(Self(name))
    }

    /// Wraps a name this crate itself defines.
    pub fn built_in(name: &'static str) -> (r: Self)
        ensures
            r@ == name@,
    {
        Self(name.to_owned())
    }

    /// The name, for display and for comparison.
    pub fn as_str(&self) -> (s: &str)
        ensures
            s@ == self@,
    {
        self.0.as_str()
    }

    /// A copy of this name.
    pub fn duplicate(&self) -> (r: Self)
        ensures
            r@ == self@,
    {
        RequestName(self.0.clone())
    }
}

impl PartialEq for RequestName {
    fn eq(&self, other: &Self) -> (r: bool) {
        self.0 == other.0
    }
}

impl vstd::std_specs::cmp::PartialEqSpecImpl for RequestName {
    open spec fn obeys_eq_spec() -> bool {
        true
    }

    open spec fn eq_spec(&self, other: &Self) -> bool {
        self@ == other@
    }
}

/// The name the published source carries, as other programs see it.
#[derive(Debug, Clone, Eq)]
pub struct PublishedName(pub(crate) String);

impl PublishedName {
    /// The name's characters.
    pub open(crate) spec fn view(&self) -> Seq<char> {
        self.0@
    }

    /// Parses and trims a user-entered publication name, refusing one that is
    /// empty once trimmed or longer than 64 characters.
    pub fn parse(entry: &str) -> (r: Result<Self, CoreError>)
        ensures
            match r {
                Ok(name) => acceptable_name(entry@, 64) && name@ == trim(entry@),
                Err(e) => !acceptable_name(entry@, 64) && e
                    == CoreError::MalformedPublicationName { max: 64 },
            },
    {
        let name = trimmed(entry);
        let len = name.as_str().unicode_len();
        if len == 0 || len > MAX_PUBLISHED_NAME_LEN {
            return Err(CoreError::MalformedPublicationName { max: MAX_PUBLISHED_NAME_LEN });
        }
        Ok(Self(name))
    }

    /// The name, for display and for the platform call that publishes it.
    pub fn as_str(&self) -> (s: &str)
        ensures
            s@ == self@,
    {
        self.0.as_str()
    }

    /// A copy of this name.
    pub fn duplicate(&self) -> (r: Self)
        ensures
            r@ == self@,
    {
        PublishedName(self.0.clone())
    }
}

impl PartialEq for PublishedName {
    fn eq(&self, other: &Self) -> (r: bool) {
        self.0 == other.0
    }
}

impl vstd::std_specs::cmp::PartialEqSpecImpl for PublishedName {
    open spec fn obeys_eq_spec() -> bool {
        true
    }

    open spec fn eq_spec(&self, other: &Self) -> bool {
        self@ == other@
    }
}

impl Default for PublishedName {
    /// The product name, matching what the virtual destination already uses.
    fn default() -> (r: Self)
        ensures
            r@ == "MIDI Monitor"@,
    {
        Self("MIDI Monitor".to_owned())
    }
}

/// The time of day an `HH:MM:SS.mmm` text reads as, in milliseconds: hours,
/// minutes, seconds and milliseconds taken from their fixed places.
pub open spec fn clock_reading(s: Seq<char>) -> nat {
    digits_value(s.subrange(0, 2)) * 3_600_000 + digits_value(s.subrange(3, 5)) * 60_000
        + digits_value(s.subrange(6, 8)) * 1000 + digits_value(s.subrange(9, 12))
}

/// The clock display is a faithful 24-hour rendering: for every time of day it
/// is twelve characters `HH:MM:SS.mmm`, hours below 24, minutes and seconds
/// below 60, and reading it back gives the time it was made from.
pub proof fn lemma_clock_display_reads_back(millis: nat)
    requires
        millis < 86_400_000,
    ensures
        clock_display(millis).len() == 12,
        clock_display(millis)[2] == ':',
        clock_display(millis)[5] == ':',
        clock_display(millis)[8] == '.',
        all_ascii_digits(clock_display(millis).subrange(0, 2)),
        all_ascii_digits(clock_display(millis).subrange(3, 5)),
        all_ascii_digits(clock_display(millis).subrange(6, 8)),
        all_ascii_digits(clock_display(millis).subrange(9, 12)),
        digits_value(clock_display(millis).subrange(0, 2)) < 24,
        digits_value(clock_display(millis).subrange(3, 5)) < 60,
        digits_value(clock_display(millis).subrange(6, 8)) < 60,
        clock_reading(clock_display(millis)) == millis,
{
    let ms = millis % 1000;
    let total_seconds = millis / 1000;
    let seconds = total_seconds % 60;
    let minutes = (total_seconds / 60) % 60;
    let hours = (total_seconds / 3600) % 24;
    assert(total_seconds < 86_400);
    assert(total_seconds / 3600 < 24);
    assert(hours == total_seconds / 3600);
    assert(millis == total_seconds * 1000 + ms);
    assert(total_seconds == (total_seconds / 60) * 60 + seconds);
    assert(total_seconds / 60 == (total_seconds / 3600) * 60 + minutes) by {
        assert(total_seconds / 3600 == (total_seconds / 60) / 60);
    }
    assert(millis == hours * 3_600_000 + minutes * 60_000 + seconds * 1000 + ms) by (nonlinear_arith)
        requires
            millis == total_seconds * 1000 + ms,
            total_seconds == (total_seconds / 60) * 60 + seconds,
            total_seconds / 60 == hours * 60 + minutes,
    ;
    lemma_small_decimal_len(hours);
    lemma_small_decimal_len(minutes);
    lemma_small_decimal_len(seconds);
    lemma_small_decimal_len(ms);
    lemma_padded_decimal_digits(hours, 2);
    lemma_padded_decimal_digits(minutes, 2);
    lemma_padded_decimal_digits(seconds, 2);
    lemma_padded_decimal_digits(ms, 3);
    let a = padded_decimal(hours, 2);
    let b = padded_decimal(minutes, 2);
    let c = padded_decimal(seconds, 2);
    let d = padded_decimal(ms, 3);
    let s = clock_display(millis);
    assert(s == a + seq![':'] + b + seq![':'] + c + seq!['.'] + d);
    assert(s.subrange(0, 2) =~= a);
    assert(s.subrange(3, 5) =~= b);
    assert(s.subrange(6, 8) =~= c);
    assert(s.subrange(9, 12) =~= d);
}

} // verus!
