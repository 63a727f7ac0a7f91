//! How the event table renders what it has received: the display settings, and
//! the labels the settings tab shows for them.
//!
//! What belongs in the Time, Message, and Data cells is a fact about MIDI, and a
//! setting that selects between two such facts is still one, so these live
//! beside the rendering rules rather than in the interface. The labels are
//! normative content: the two program numbering labels use an en dash (U+2013).

pub mod group_label;

use crate::text::{decimal, decimal_string, hexadecimal, hexadecimal_string};
use vstd::prelude::*;

verus! {

/// What the Time column shows.
#[derive(Debug, Clone, Copy, PartialEq, Eq, Structural, Hash)]
pub enum TimeFormat {
    /// Wall-clock arrival time, `HH:MM:SS.mmm`.
    ClockTime,
    /// The host clock's own tick count, as a whole number.
    HostInteger,
    /// The host clock expressed in seconds.
    HostSeconds,
    /// The host clock expressed in nanoseconds.
    HostNanoseconds,
}

/// A time format's radio button label.
pub open spec fn time_format_label(f: TimeFormat) -> Seq<char> {
    match f {
        TimeFormat::ClockTime => "Clock time"@,
        TimeFormat::HostInteger => "Host time (integer)"@,
        TimeFormat::HostSeconds => "Host time (seconds)"@,
        TimeFormat::HostNanoseconds => "Host time (nanoseconds)"@,
    }
}

impl TimeFormat {
    /// Every option, in the order the settings tab lists them.
    pub const ALL: [TimeFormat; 4] = [
        TimeFormat::ClockTime,
        TimeFormat::HostInteger,
        TimeFormat::HostSeconds,
        TimeFormat::HostNanoseconds,
    ];

    /// The radio button's label.
    pub fn label(self) -> (s: &'static str)
        ensures
            s@ == time_format_label(self),
    {
        match self {
            TimeFormat::ClockTime => "Clock time",
            TimeFormat::HostInteger => "Host time (integer)",
            TimeFormat::HostSeconds => "Host time (seconds)",
            TimeFormat::HostNanoseconds => "Host time (nanoseconds)",
        }
    }
}

impl Default for TimeFormat {
    /// Clock time.
    fn default() -> (f: Self)
        ensures
            f == TimeFormat::ClockTime,
    {
        TimeFormat::ClockTime
    }
}

/// How a note number is written.
#[derive(Debug, Clone, Copy, PartialEq, Eq, Structural, Hash)]
pub enum NoteFormat {
    /// A name and octave placing middle C (note 60) at `C3`.
    NameMiddleC3,
    /// A name and octave placing middle C (note 60) at `C4`.
    NameMiddleC4,
    /// The raw note number, base ten.
    Decimal,
    /// The raw note number, base sixteen.
    Hexadecimal,
}

/// A note format's radio button label.
pub open spec fn note_format_label(f: NoteFormat) -> Seq<char> {
    match f {
        NoteFormat::NameMiddleC3 => "Note (Middle C = C3)"@,
        NoteFormat::NameMiddleC4 => "Note (Middle C = C4)"@,
        NoteFormat::Decimal => "Decimal number"@,
        NoteFormat::Hexadecimal => "Hexadecimal number"@,
    }
}

impl NoteFormat {
    /// Every option, in the order the settings tab lists them.
    pub const ALL: [NoteFormat; 4] = [
        NoteFormat::NameMiddleC3,
        NoteFormat::NameMiddleC4,
        NoteFormat::Decimal,
        NoteFormat::Hexadecimal,
    ];

    /// The radio button's label.
    pub fn label(self) -> (s: &'static str)
        ensures
            s@ == note_format_label(self),
    {
        match self {
            NoteFormat::NameMiddleC3 => "Note (Middle C = C3)",
            NoteFormat::NameMiddleC4 => "Note (Middle C = C4)",
            NoteFormat::Decimal => "Decimal number",
            NoteFormat::Hexadecimal => "Hexadecimal number",
        }
    }
}

impl Default for NoteFormat {
    /// Names, with middle C at `C3`.
    fn default() -> (f: Self)
        ensures
            f == NoteFormat::NameMiddleC3,
    {
        NoteFormat::NameMiddleC3
    }
}

/// How a Control Change's controller number is written.
#[derive(Debug, Clone, Copy, PartialEq, Eq, Structural, Hash)]
pub enum ControllerFormat {
    /// The controller's conventional name, falling back to its number.
    StandardName,
    /// The controller number, base ten.
    Decimal,
    /// The controller number, base sixteen.
    Hexadecimal,
}

/// A controller format's radio button label.
pub open spec fn controller_format_label(f: ControllerFormat) -> Seq<char> {
    match f {
        ControllerFormat::StandardName => "Standard name"@,
        ControllerFormat::Decimal => "Decimal number"@,
        ControllerFormat::Hexadecimal => "Hexadecimal number"@,
    }
}

impl ControllerFormat {
    /// Every option, in the order the settings tab lists them.
    pub const ALL: [ControllerFormat; 3] = [
        ControllerFormat::StandardName,
        ControllerFormat::Decimal,
        ControllerFormat::Hexadecimal,
    ];

    /// The radio button's label.
    pub fn label(self) -> (s: &'static str)
        ensures
            s@ == controller_format_label(self),
    {
        match self {
            ControllerFormat::StandardName => "Standard name",
            ControllerFormat::Decimal => "Decimal number",
            ControllerFormat::Hexadecimal => "Hexadecimal number",
        }
    }
}

impl Default for ControllerFormat {
    /// Standard names.
    fn default() -> (f: Self)
        ensures
            f == ControllerFormat::StandardName,
    {
        ControllerFormat::StandardName
    }
}

/// The base every remaining data value is written in: velocities, controller
/// values, pressures, bend amounts, song positions and selections, time code.
#[derive(Debug, Clone, Copy, PartialEq, Eq, Structural, Hash)]
pub enum DataFormat {
    /// Base ten.
    Decimal,
    /// Base sixteen.
    Hexadecimal,
}

/// A data format's radio button label.
pub open spec fn data_format_label(f: DataFormat) -> Seq<char> {
    match f {
        DataFormat::Decimal => "Decimal number"@,
        DataFormat::Hexadecimal => "Hexadecimal number"@,
    }
}

/// A value written in a data format: base ten, or uppercase unpadded base
/// sixteen.
pub open spec fn written(f: DataFormat, value: nat) -> Seq<char> {
    match f {
        DataFormat::Decimal => decimal(value),
        DataFormat::Hexadecimal => hexadecimal(value),
    }
}

impl DataFormat {
    /// Every option, in the order the settings tab lists them.
    pub const ALL: [DataFormat; 2] = [DataFormat::Decimal, DataFormat::Hexadecimal];

    /// The radio button's label.
    pub fn label(self) -> (s: &'static str)
        ensures
            s@ == data_format_label(self),
    {
        match self {
            DataFormat::Decimal => "Decimal number",
            DataFormat::Hexadecimal => "Hexadecimal number",
        }
    }

    /// Writes a value in this base.
    pub fn write(self, value: u16) -> (s: String)
        ensures
            s@ == written(self, value as nat),
    {
        match self {
            DataFormat::Decimal => decimal_string(value as u128),
            DataFormat::Hexadecimal => hexadecimal_string(value as u128),
        }
    }
}

impl Default for DataFormat {
    /// Base ten.
    fn default() -> (f: Self)
        ensures
            f == DataFormat::Decimal,
    {
        DataFormat::Decimal
    }
}

/// Whether a Program Change's program is counted from one or from zero.
#[derive(Debug, Clone, Copy, PartialEq, Eq, Structural, Hash)]
pub enum ProgramNumbering {
    /// `1 – 128`: the wire value plus one.
    FromOne,
    /// `0 – 127`: the wire value as it arrived.
    FromZero,
}

/// A program numbering's radio button label.
pub open spec fn program_numbering_label(p: ProgramNumbering) -> Seq<char> {
    match p {
        ProgramNumbering::FromOne => "1 – 128 (Standard)"@,
        ProgramNumbering::FromZero => "0 – 127 (Less common)"@,
    }
}

/// The number displayed for a wire program value.
pub open spec fn displayed_program(p: ProgramNumbering, wire: u8) -> u16 {
    match p {
        ProgramNumbering::FromOne => (wire + 1) as u16,
        ProgramNumbering::FromZero => wire as u16,
    }
}

impl ProgramNumbering {
    /// Every option, in the order the settings tab lists them.
    pub const ALL: [ProgramNumbering; 2] = [ProgramNumbering::FromOne, ProgramNumbering::FromZero];

    /// The radio button's label.
    pub fn label(self) -> (s: &'static str)
        ensures
            s@ == program_numbering_label(self),
    {
        match self {
            ProgramNumbering::FromOne => "1 – 128 (Standard)",
            ProgramNumbering::FromZero => "0 – 127 (Less common)",
        }
    }

    /// The number to display for a wire program value.
    pub fn displayed(self, wire: u8) -> (n: u16)
        ensures
            n == displayed_program(self, wire),
    {
        match self {
            ProgramNumbering::FromOne => wire as u16 + 1,
            ProgramNumbering::FromZero => wire as u16,
        }
    }
}

impl Default for ProgramNumbering {
    /// Counted from one.
    fn default() -> (p: Self)
        ensures
            p == ProgramNumbering::FromOne,
    {
        ProgramNumbering::FromOne
    }
}

/// Whether the monitor's three interpretive conveniences are applied.
#[derive(Debug, Clone, Copy, PartialEq, Eq, Structural, Hash)]
pub enum ExpertMode {
    /// Values are formatted per the settings, a Note On with velocity zero reads
    /// as a release, and a zero timestamp shows the time of receipt.
    Off,
    /// The conveniences are suppressed and what arrived is shown.
    On,
}

/// The three lines beneath the checkbox, stating the behaviour in force.
pub open spec fn expert_notes(mode: ExpertMode) -> Seq<Seq<char>> {
    match mode {
        ExpertMode::Off => seq![
            "Data formatted according to settings above"@,
            "Note On with velocity 0 shows as Note Off"@,
            "Zero timestamp shows time received"@,
        ],
        ExpertMode::On => seq![
            "Data formatted as raw hexadecimal"@,
            "Note On with velocity 0 shows as Note On"@,
            "Zero timestamp shows 0"@,
        ],
    }
}

impl ExpertMode {
    /// The checkbox's label.
    pub const LABEL: &'static str = "Expert mode";

    /// The three lines beneath the checkbox, for the mode currently selected.
    /// Line `n` of one mode is the opposite of line `n` of the other, so the
    /// list never reorders under the reader.
    pub fn notes(self) -> (lines: [&'static str; 3])
        ensures
            lines@.map_values(|s: &'static str| s@) == expert_notes(self),
    {
        let lines = match self {
            ExpertMode::Off => [
                "Data formatted according to settings above",
                "Note On with velocity 0 shows as Note Off",
                "Zero timestamp shows time received",
            ],
            ExpertMode::On => [
                "Data formatted as raw hexadecimal",
                "Note On with velocity 0 shows as Note On",
                "Zero timestamp shows 0",
            ],
        };
        assert(lines@.map_values(|s: &'static str| s@) =~= expert_notes(self));
        lines
    }

    /// Whether the box is ticked.
    pub fn is_on(self) -> (b: bool)
        ensures
            b == (self == ExpertMode::On),
    {
        match self {
            ExpertMode::On => true,
            ExpertMode::Off => false,
        }
    }
}

impl Default for ExpertMode {
    /// Unticked.
    fn default() -> (m: Self)
        ensures
            m == ExpertMode::Off,
    {
        ExpertMode::Off
    }
}

impl From<bool> for ExpertMode {
    /// The mode the checkbox's state stands for.
    fn from(ticked: bool) -> (m: Self) {
        if ticked {
            ExpertMode::On
        } else {
            ExpertMode::Off
        }
    }
}

impl vstd::std_specs::convert::FromSpecImpl<bool> for ExpertMode {
    open spec fn obeys_from_spec() -> bool {
        true
    }

    open spec fn from_spec(ticked: bool) -> Self {
        if ticked {
            ExpertMode::On
        } else {
            ExpertMode::Off
        }
    }
}

/// Every display choice, as one value.
#[derive(Debug, Clone, Copy, PartialEq, Eq, Structural, Hash)]
pub struct DisplaySettings {
    /// What the Time column shows.
    pub time: TimeFormat,
    /// How note numbers are written.
    pub note: NoteFormat,
    /// How controller numbers are written.
    pub controller: ControllerFormat,
    /// The base for every remaining value.
    pub data: DataFormat,
    /// Whether programs are counted from one or from zero.
    pub program: ProgramNumbering,
    /// Whether the monitor's conveniences are suppressed.
    pub expert: ExpertMode,
}

/// The states the settings tab starts in.
pub open spec fn default_display() -> DisplaySettings {
    DisplaySettings {
        time: TimeFormat::ClockTime,
        note: NoteFormat::NameMiddleC3,
        controller: ControllerFormat::StandardName,
        data: DataFormat::Decimal,
        program: ProgramNumbering::FromOne,
        expert: ExpertMode::Off,
    }
}

impl Default for DisplaySettings {
    /// Clock time, names with middle C at `C3`, standard controller names,
    /// decimal data, programs from one, expert mode off.
    fn default() -> (d: Self)
        ensures
            d == default_display(),
    {
        DisplaySettings {
            time: TimeFormat::ClockTime,
            note: NoteFormat::NameMiddleC3,
            controller: ControllerFormat::StandardName,
            data: DataFormat::Decimal,
            program: ProgramNumbering::FromOne,
            expert: ExpertMode::Off,
        }
    }
}

} // verus!
