//! The values handed to the interface, and how they are read off the monitor
//! and the sender.
//!
//! These are separate from the domain types because they answer to what the
//! interface needs to render. The Data cell, the Time string, and the raw hex
//! cross as finished strings: what belongs in the Data cell is a fact about
//! MIDI, so it is rendered here rather than on the far side of the boundary.

use crate::capture::CaptureState;
use crate::column::{all_columns, column_id, column_label, Column};
use crate::composition::{
    composition_fields, field_reading, Composition, CompositionModel,
};
use crate::display::DisplaySettings;
use crate::encoder::encoding;
use crate::event::MidiEvent;
use crate::filter::{ChannelMode, DataPrefixRule, PrefixMode};
use crate::ids::{clock_display, SourceGroupId, TickRate};
use crate::message::{category_label, kind_category, kind_id, kind_label, MessageCategory, MessageKind};
use crate::monitor::Monitor;
use crate::ports::{ByteFidelity, MidiSystemStatus, PublicationSupport};
use crate::rendering::{data_display, data_text, message_display, message_text, time_display, time_text};
use crate::request::{RequestModel, RequestOrigin};
use crate::send_record::SendOutcome;
use crate::sendable::{field_id_text, kind_of, sendable_id, sendable_label, FieldKind, FieldModel, SendableKind};
use crate::sender::Sender;
use crate::source::{
    check_state_of, event_label_of, first_with_id, Availability, CheckState,
    Source, SourceCatalogue,
};
use crate::target::TargetKind;
use crate::text::{compact_hex, spaced_hex as spaced_hex_text, spaced_hex_string, to_string};
use vstd::prelude::*;

verus! {

/// One row of the event table, rendered.
#[derive(Debug, Clone)]
pub struct EventDto {
    /// Arrival order and identity.
    pub id: u32,
    /// The Time cell.
    pub time: String,
    /// The Source cell.
    pub source: String,
    /// The Message cell.
    pub message: String,
    /// The Chan cell, blank for messages that carry none.
    pub channel: Option<u8>,
    /// The Data cell.
    pub data: String,
    /// The bytes as they arrived, for the row's raw view.
    pub raw_hex: String,
}

/// The Source cell of a row: the source's label, or a placeholder when the
/// catalogue no longer lists it.
pub open spec fn source_text(sources: Seq<Source>, event: MidiEvent) -> Seq<char> {
    if exists|i: int| first_with_id(sources, event.source, i) {
        event_label_of(sources[choose|i: int| first_with_id(sources, event.source, i)])
    } else {
        "(unknown source)"@
    }
}

/// Whether a row is the rendering of an event.
pub open spec fn renders_event(
    d: EventDto,
    event: MidiEvent,
    sources: Seq<Source>,
    settings: DisplaySettings,
    rate: u64,
) -> bool {
    &&& d.id == event.id@
    &&& d.time@ == time_text(event, settings, rate)
    &&& d.source@ == source_text(sources, event)
    &&& d.message@ == message_text(event, settings)
    &&& d.channel == event.message@.channel()
    &&& d.data@ == data_text(event, settings)
    &&& d.raw_hex@ == compact_hex(event.raw@)
}

impl EventDto {
    /// Renders one event under the given display settings.
    pub fn from_event(
        event: &MidiEvent,
        catalogue: &SourceCatalogue,
        settings: DisplaySettings,
        rate: TickRate,
    ) -> (d: Self)
        ensures
            renders_event(d, *event, catalogue@, settings, rate@),
    {
        let source = match catalogue.event_label(event.source) {
            Some(label) => {
                proof {
                    let i = choose|i: int|
                        first_with_id(catalogue@, event.source, i) && label@ == event_label_of(
                            catalogue@[i],
                        );
                    let j = choose|j: int| first_with_id(catalogue@, event.source, j);
                    assert(i == j) by {
                        if i < j {
                            assert(catalogue@[i].id == event.source);
                        }
                        if j < i {
                            assert(catalogue@[j].id == event.source);
                        }
                    }
                }
                label
            },
            None => to_string("(unknown source)"),
        };
        let channel = match event.channel() {
            Some(c) => Some(c.get()),
            None => None,
        };
        EventDto {
            id: event.id.get(),
            time: time_display(event, settings, rate),
            source,
            message: to_string(message_display(event, settings)),
            channel,
            data: data_display(event, settings),
            raw_hex: event.raw_hex(),
        }
    }
}

/// A run of events streamed to the interface as they arrive.
#[derive(Debug, Clone)]
pub struct EventBatchDto {
    /// The events, oldest first.
    pub events: Vec<EventDto>,
}

/// A tri-state checkbox.
#[derive(Debug, Clone, Copy, PartialEq, Eq, Structural)]
pub enum CheckStateDto {
    Checked,
    Unchecked,
    Mixed,
}

/// The checkbox state for a group's state.
pub open spec fn check_state_dto(state: CheckState) -> CheckStateDto {
    match state {
        CheckState::Checked => CheckStateDto::Checked,
        CheckState::Unchecked => CheckStateDto::Unchecked,
        CheckState::Mixed => CheckStateDto::Mixed,
    }
}

impl From<CheckState> for CheckStateDto {
    fn from(state: CheckState) -> (d: Self) {
        match state {
            CheckState::Checked => CheckStateDto::Checked,
            CheckState::Unchecked => CheckStateDto::Unchecked,
            CheckState::Mixed => CheckStateDto::Mixed,
        }
    }
}

impl vstd::std_specs::convert::FromSpecImpl<CheckState> for CheckStateDto {
    open spec fn obeys_from_spec() -> bool {
        true
    }

    open spec fn from_spec(state: CheckState) -> Self {
        check_state_dto(state)
    }
}

/// Whether a listed source can deliver, as the interface shows it.
#[derive(Debug, Clone)]
pub enum AvailabilityDto {
    Open,
    Unopenable { detail: String },
    Absent,
    Unsupported { detail: String },
}

/// Whether an availability is shown as this one.
pub open spec fn shows_availability(d: AvailabilityDto, a: Availability) -> bool {
    match (d, a) {
        (AvailabilityDto::Open, Availability::Open) => true,
        (AvailabilityDto::Unopenable { detail: x }, Availability::Unopenable { detail: y }) => x@
            == y@,
        (AvailabilityDto::Absent, Availability::Absent) => true,
        (AvailabilityDto::Unsupported { detail: x }, Availability::Unsupported { detail: y }) => x@
            == y@,
        _ => false,
    }
}

impl AvailabilityDto {
    /// The availability as the interface shows it.
    pub fn of(availability: &Availability) -> (d: Self)
        ensures
            shows_availability(d, *availability),
    {
        match availability {
            Availability::Open => AvailabilityDto::Open,
            Availability::Unopenable { detail } => AvailabilityDto::Unopenable {
                detail: detail.clone(),
            },
            Availability::Absent => AvailabilityDto::Absent,
            Availability::Unsupported { detail } => AvailabilityDto::Unsupported {
                detail: detail.clone(),
            },
        }
    }
}

/// How faithfully received bytes are delivered, as the interface shows it.
#[derive(Debug, Clone)]
pub enum ByteFidelityDto {
    AsTransmitted,
    Assembled { detail: String },
}

impl ByteFidelityDto {
    /// The fidelity as the interface shows it.
    pub fn of(fidelity: &ByteFidelity) -> (d: Self)
        ensures
            match (d, *fidelity) {
                (ByteFidelityDto::AsTransmitted, ByteFidelity::AsTransmitted) => true,
                (ByteFidelityDto::Assembled { detail: x }, ByteFidelity::Assembled { detail: y }) =>
                    x@ == y@,
                _ => false,
            },
    {
        match fidelity {
            ByteFidelity::AsTransmitted => ByteFidelityDto::AsTransmitted,
            ByteFidelity::Assembled { detail } => ByteFidelityDto::Assembled {
                detail: detail.clone(),
            },
        }
    }
}

/// Whether the MIDI system could be reached, as the interface shows it.
#[derive(Debug, Clone)]
pub enum MidiSystemStatusDto {
    Available,
    Unavailable { detail: String },
}

impl MidiSystemStatusDto {
    /// The status as the interface shows it.
    pub fn of(status: &MidiSystemStatus) -> (d: Self)
        ensures
            match (d, *status) {
                (MidiSystemStatusDto::Available, MidiSystemStatus::Available) => true,
                (
                    MidiSystemStatusDto::Unavailable { detail: x },
                    MidiSystemStatus::Unavailable { detail: y },
                ) => x@ == y@,
                _ => false,
            },
    {
        match status {
            MidiSystemStatus::Available => MidiSystemStatusDto::Available,
            MidiSystemStatus::Unavailable { detail } => MidiSystemStatusDto::Unavailable {
                detail: detail.clone(),
            },
        }
    }
}

/// Whether the monitor is taking in what arrives, as the interface shows it.
#[derive(Debug, Clone, Copy, PartialEq, Eq, Structural)]
pub enum CaptureStateDto {
    Running,
    Paused,
}

impl From<CaptureStateDto> for CaptureState {
    fn from(capture: CaptureStateDto) -> (c: Self) {
        match capture {
            CaptureStateDto::Running => CaptureState::Running,
            CaptureStateDto::Paused => CaptureState::Paused,
        }
    }
}

impl vstd::std_specs::convert::FromSpecImpl<CaptureStateDto> for CaptureState {
    open spec fn obeys_from_spec() -> bool {
        true
    }

    open spec fn from_spec(capture: CaptureStateDto) -> Self {
        match capture {
            CaptureStateDto::Running => CaptureState::Running,
            CaptureStateDto::Paused => CaptureState::Paused,
        }
    }
}

/// The capture state as the interface shows it.
pub open spec fn capture_dto(capture: CaptureState) -> CaptureStateDto {
    match capture {
        CaptureState::Running => CaptureStateDto::Running,
        CaptureState::Paused => CaptureStateDto::Paused,
    }
}

impl From<CaptureState> for CaptureStateDto {
    fn from(capture: CaptureState) -> (d: Self) {
        match capture {
            CaptureState::Running => CaptureStateDto::Running,
            CaptureState::Paused => CaptureStateDto::Paused,
        }
    }
}

impl vstd::std_specs::convert::FromSpecImpl<CaptureState> for CaptureStateDto {
    open spec fn obeys_from_spec() -> bool {
        true
    }

    open spec fn from_spec(capture: CaptureState) -> Self {
        capture_dto(capture)
    }
}

/// Whether prefix matches are shown or hidden, as the interface names it.
#[derive(Debug, Clone, Copy, PartialEq, Eq, Structural)]
pub enum PrefixModeDto {
    Include,
    Exclude,
}

/// The prefix mode as the interface names it.
pub open spec fn prefix_mode_dto(mode: PrefixMode) -> PrefixModeDto {
    match mode {
        PrefixMode::Include => PrefixModeDto::Include,
        PrefixMode::Exclude => PrefixModeDto::Exclude,
    }
}

impl From<PrefixModeDto> for PrefixMode {
    fn from(mode: PrefixModeDto) -> (m: Self) {
        match mode {
            PrefixModeDto::Include => PrefixMode::Include,
            PrefixModeDto::Exclude => PrefixMode::Exclude,
        }
    }
}

impl vstd::std_specs::convert::FromSpecImpl<PrefixModeDto> for PrefixMode {
    open spec fn obeys_from_spec() -> bool {
        true
    }

    open spec fn from_spec(mode: PrefixModeDto) -> Self {
        match mode {
            PrefixModeDto::Include => PrefixMode::Include,
            PrefixModeDto::Exclude => PrefixMode::Exclude,
        }
    }
}

impl From<PrefixMode> for PrefixModeDto {
    fn from(mode: PrefixMode) -> (d: Self) {
        match mode {
            PrefixMode::Include => PrefixModeDto::Include,
            PrefixMode::Exclude => PrefixModeDto::Exclude,
        }
    }
}

impl vstd::std_specs::convert::FromSpecImpl<PrefixMode> for PrefixModeDto {
    open spec fn obeys_from_spec() -> bool {
        true
    }

    open spec fn from_spec(mode: PrefixMode) -> Self {
        prefix_mode_dto(mode)
    }
}

/// One prefix rule, as the interface lists it.
#[derive(Debug, Clone)]
pub struct DataPrefixRuleDto {
    /// The normalised prefix.
    pub prefix: String,
    /// Whether matches are shown or hidden.
    pub kind: PrefixModeDto,
}

impl DataPrefixRuleDto {
    /// The rule as the interface lists it.
    pub fn of(rule: &DataPrefixRule) -> (d: Self)
        ensures
            d.prefix@ == rule.prefix@,
            d.kind == prefix_mode_dto(rule.kind),
    {
        DataPrefixRuleDto {
            prefix: to_string(rule.prefix.as_str()),
            kind: match rule.kind {
                PrefixMode::Include => PrefixModeDto::Include,
                PrefixMode::Exclude => PrefixModeDto::Exclude,
            },
        }
    }
}

/// The table's state: the visible events and the counts beneath them.
#[derive(Debug, Clone)]
pub struct SnapshotDto {
    /// The visible events, oldest first.
    pub events: Vec<EventDto>,
    /// How many events are retained, before filtering.
    pub retained_count: u32,
    /// The retention cap.
    pub retention_limit: u32,
    /// Whether any source is selected.
    pub monitoring: bool,
    /// The id of the newest visible event, so in-flight batches can be dropped.
    pub high_water_mark: Option<u32>,
    /// Whether arriving events are taken in.
    pub capture_state: CaptureStateDto,
}

/// A count as it crosses the boundary: saturated at the top of `u32`.
pub open spec fn saturated(n: nat) -> u32 {
    if n <= u32::MAX {
        n as u32
    } else {
        u32::MAX
    }
}

/// A count saturated at the top of `u32`.
fn saturate(n: usize) -> (r: u32)
    ensures
        r == saturated(n as nat),
{
    if n <= u32::MAX as usize {
        n as u32
    } else {
        u32::MAX
    }
}

impl SnapshotDto {
    /// The table's state, read off the monitor.
    pub fn from_monitor(monitor: &Monitor) -> (d: Self)
        ensures
            ({
                let visible = monitor.retained().filter(
                    |e: MidiEvent| crate::filter::filter_admits(monitor.filter_state(), e),
                );
                &&& d.events@.len() == visible.len()
                &&& forall|i: int|
                    0 <= i < visible.len() ==> renders_event(
                        #[trigger] d.events@[i],
                        visible[i],
                        monitor.sources(),
                        monitor.display_spec(),
                        monitor.tick_rate_spec()@,
                    )
                &&& d.high_water_mark == if visible.len() == 0 {
                    None::<u32>
                } else {
                    Some(visible.last().id@)
                }
            }),
            d.retained_count == saturated(monitor.retained().len()),
            d.retention_limit == saturated(monitor.cap()@ as nat),
            d.monitoring == exists|i: int|
                0 <= i < monitor.sources().len() && #[trigger] monitor.sources()[i].selected,
            d.capture_state == capture_dto(monitor.capture_spec()),
    {
        let visible = monitor.visible_events();
        let ghost shown = visible@.map_values(|e: &MidiEvent| *e);
        let settings = monitor.display();
        let rate = monitor.tick_rate();
        let catalogue = monitor.catalogue();
        let mut events: Vec<EventDto> = Vec::new();
        let mut high_water_mark: Option<u32> = None;
        let mut i: usize = 0;
        while i < visible.len()
            invariant
                i <= visible@.len(),
                shown == visible@.map_values(|e: &MidiEvent| *e),
                events@.len() == i,
                catalogue@ == monitor.sources(),
                settings == monitor.display_spec(),
                rate == monitor.tick_rate_spec(),
                forall|k: int|
                    0 <= k < i ==> renders_event(
                        #[trigger] events@[k],
                        shown[k],
                        monitor.sources(),
                        settings,
                        rate@,
                    ),
                high_water_mark == if i == 0 {
                    None::<u32>
                } else {
                    Some(shown[i - 1].id@)
                },
            decreases visible@.len() - i,
        {
            let dto = EventDto::from_event(visible[i], catalogue, settings, rate);
            high_water_mark = Some(dto.id);
            events.push(dto);
            i = i + 1;
        }
        SnapshotDto {
            events,
            retained_count: saturate(monitor.retained_count()),
            retention_limit: saturate(monitor.retention().get()),
            monitoring: monitor.is_monitoring(),
            high_water_mark,
            capture_state: match monitor.capture_state() {
                CaptureState::Running => CaptureStateDto::Running,
                CaptureState::Paused => CaptureStateDto::Paused,
            },
        }
    }
}

/// The wire identifier of a source group.
pub open spec fn group_wire_id(group: SourceGroupId) -> Seq<char> {
    match group {
        SourceGroupId::MidiSources => "midiSources"@,
        SourceGroupId::SpyOnOutput => "spyOnOutput"@,
    }
}

/// The wire identifier of a source group.
pub fn wire_group_id(group: SourceGroupId) -> (s: &'static str)
    ensures
        s@ == group_wire_id(group),
{
    match group {
        SourceGroupId::MidiSources => "midiSources",
        SourceGroupId::SpyOnOutput => "spyOnOutput",
    }
}

/// Bytes as uppercase hexadecimal pairs separated by single spaces.
pub fn spaced_hex(bytes: &[u8]) -> (s: String)
    ensures
        s@ == spaced_hex_text(bytes@),
{
    spaced_hex_string(bytes)
}

/// An optional string, as a value.
pub open spec fn opt_text(o: Option<String>) -> Option<Seq<char>> {
    match o {
        Some(s) => Some(s@),
        None => None,
    }
}

/// One source row of the Sources panel.
#[derive(Debug, Clone)]
pub struct SourceDto {
    /// Session identity.
    pub id: u32,
    /// The name the operating system supplies.
    pub name: String,
    /// Whether the row is ticked.
    pub selected: bool,
    /// Whether it can deliver, and if not, why.
    pub availability: AvailabilityDto,
}

/// Whether a row shows this source.
pub open spec fn shows_source(d: SourceDto, s: Source) -> bool {
    &&& d.id == s.id@
    &&& d.name@ == s.name@
    &&& d.selected == s.selected
    &&& shows_availability(d.availability, s.availability)
}

/// The members of a group, or the standalone rows for `None`, in order.
pub open spec fn sources_in(sources: Seq<Source>, group: Option<SourceGroupId>) -> Seq<Source> {
    sources.filter(|s: Source| s.group == group)
}

/// Whether a list of rows shows this list of sources, one for one.
pub open spec fn shows_sources(d: Seq<SourceDto>, sources: Seq<Source>) -> bool {
    &&& d.len() == sources.len()
    &&& forall|i: int| 0 <= i < d.len() ==> shows_source(#[trigger] d[i], sources[i])
}

/// The row for one source.
fn source_dto(source: &Source) -> (d: SourceDto)
    ensures
        shows_source(d, *source),
{
    SourceDto {
        id: source.id.get(),
        name: source.name.clone(),
        selected: source.selected,
        availability: AvailabilityDto::of(&source.availability),
    }
}

/// The rows for the members of a group, or the standalone rows for `None`.
fn source_dtos(catalogue: &SourceCatalogue, group: Option<SourceGroupId>) -> (rows: Vec<SourceDto>)
    ensures
        shows_sources(rows@, sources_in(catalogue@, group)),
{
    let sources = catalogue.sources();
    let mut rows: Vec<SourceDto> = Vec::new();
    let mut i: usize = 0;
    while i < sources.len()
        invariant
            i <= sources@.len(),
            sources@ == catalogue@,
            shows_sources(rows@, sources_in(sources@.take(i as int), group)),
        decreases sources@.len() - i,
    {
        proof {
            assert(sources@.take(i + 1).drop_last() =~= sources@.take(i as int));
            assert(sources@.take(i + 1).last() == sources@[i as int]);
            reveal_with_fuel(Seq::filter, 1);
        }
        if sources[i].group == group {
            rows.push(source_dto(&sources[i]));
        }
        i = i + 1;
    }
    assert(sources@.take(i as int) =~= sources@);
    rows
}

/// One group of the Sources panel, or the standalone rows between them.
#[derive(Debug, Clone)]
pub struct SourceGroupDto {
    /// The group's wire identifier; `None` for the standalone rows.
    pub id: Option<String>,
    /// The group's label; `None` for the standalone rows.
    pub label: Option<String>,
    /// The group's tri-state checkbox.
    pub state: CheckStateDto,
    /// The rows, in catalogue order.
    pub sources: Vec<SourceDto>,
    /// Why the whole group cannot deliver, if it cannot.
    pub unavailable_reason: Option<String>,
}

/// Whether a group entry shows these values.
pub open spec fn shows_group(
    d: SourceGroupDto,
    id: Option<Seq<char>>,
    label: Option<Seq<char>>,
    state: CheckStateDto,
    members: Seq<Source>,
    reason: Option<Seq<char>>,
) -> bool {
    &&& opt_text(d.id) == id
    &&& opt_text(d.label) == label
    &&& d.state == state
    &&& shows_sources(d.sources@, members)
    &&& opt_text(d.unavailable_reason) == reason
}

/// Why the spy group is empty.
pub open spec fn spy_unavailable() -> Seq<char> {
    "Observing output to destinations is not available in this version."@
}

/// The label of a source group.
pub open spec fn group_label_text(group: SourceGroupId) -> Seq<char> {
    match group {
        SourceGroupId::MidiSources => "MIDI sources"@,
        SourceGroupId::SpyOnOutput => "Spy on output to destinations"@,
    }
}

/// The group entry for one group of the monitor's sources.
fn group_dto(monitor: &Monitor, group: SourceGroupId) -> (d: SourceGroupDto)
    ensures
        shows_group(
            d,
            Some(group_wire_id(group)),
            Some(group_label_text(group)),
            check_state_dto(check_state_of(crate::source::group_selections_of(monitor.sources(), group))),
            sources_in(monitor.sources(), Some(group)),
            match group {
                SourceGroupId::SpyOnOutput => Some(spy_unavailable()),
                SourceGroupId::MidiSources => None,
            },
        ),
{
    let unavailable_reason = match group {
        SourceGroupId::SpyOnOutput => Some(
            to_string("Observing output to destinations is not available in this version."),
        ),
        SourceGroupId::MidiSources => None,
    };
    SourceGroupDto {
        id: Some(to_string(wire_group_id(group))),
        label: Some(to_string(group.label())),
        state: CheckStateDto::from(monitor.group_state(group)),
        sources: source_dtos(monitor.catalogue(), Some(group)),
        unavailable_reason,
    }
}

/// The Sources panel: the MIDI sources group, the standalone rows when there
/// are any, then the spy group, which is always present and always empty of
/// anything the application did not receive.
pub fn source_groups(monitor: &Monitor) -> (groups: Vec<SourceGroupDto>)
    ensures
        ({
            let standalone = sources_in(monitor.sources(), None);
            let midi = SourceGroupId::MidiSources;
            let spy = SourceGroupId::SpyOnOutput;
            &&& groups@.len() == if standalone.len() > 0 {
                3int
            } else {
                2int
            }
            &&& shows_group(
                groups@[0],
                Some(group_wire_id(midi)),
                Some(group_label_text(midi)),
                check_state_dto(check_state_of(crate::source::group_selections_of(monitor.sources(), midi))),
                sources_in(monitor.sources(), Some(midi)),
                None,
            )
            &&& standalone.len() > 0 ==> shows_group(
                groups@[1],
                None,
                None,
                CheckStateDto::Unchecked,
                standalone,
                None,
            )
            &&& shows_group(
                groups@[groups@.len() - 1],
                Some(group_wire_id(spy)),
                Some(group_label_text(spy)),
                check_state_dto(check_state_of(crate::source::group_selections_of(monitor.sources(), spy))),
                sources_in(monitor.sources(), Some(spy)),
                Some(spy_unavailable()),
            )
        }),
{
    let mut groups: Vec<SourceGroupDto> = Vec::new();
    groups.push(group_dto(monitor, SourceGroupId::MidiSources));
    let standalone = source_dtos(monitor.catalogue(), None);
    if standalone.len() > 0 {
        groups.push(
            SourceGroupDto {
                id: None,
                label: None,
                state: CheckStateDto::Unchecked,
                sources: standalone,
                unavailable_reason: None,
            },
        );
    }
    groups.push(group_dto(monitor, SourceGroupId::SpyOnOutput));
    groups
}

/// The Sources panel and the platform's state, together.
#[derive(Debug, Clone)]
pub struct CatalogueDto {
    /// The Sources panel.
    pub groups: Vec<SourceGroupDto>,
    /// Whether the MIDI system could be reached.
    pub midi_system: MidiSystemStatusDto,
    /// How faithfully received bytes are delivered.
    pub byte_fidelity: ByteFidelityDto,
}

/// The Sources panel and the platform's state, read off the monitor.
pub fn catalogue(monitor: &Monitor) -> (d: CatalogueDto)
    ensures
        match (d.midi_system, monitor.status_spec()) {
            (MidiSystemStatusDto::Available, MidiSystemStatus::Available) => true,
            (
                MidiSystemStatusDto::Unavailable { detail: x },
                MidiSystemStatus::Unavailable { detail: y },
            ) => x@ == y@,
            _ => false,
        },
        match (d.byte_fidelity, monitor.capabilities_spec().byte_fidelity) {
            (ByteFidelityDto::AsTransmitted, ByteFidelity::AsTransmitted) => true,
            (ByteFidelityDto::Assembled { detail: x }, ByteFidelity::Assembled { detail: y }) => x@
                == y@,
            _ => false,
        },
        d.groups@.len() == if sources_in(monitor.sources(), None).len() > 0 {
            3int
        } else {
            2int
        },
{
    CatalogueDto {
        groups: source_groups(monitor),
        midi_system: MidiSystemStatusDto::of(monitor.status()),
        byte_fidelity: ByteFidelityDto::of(&monitor.capabilities().byte_fidelity),
    }
}

/// The answer to a change: the table and the Sources panel, both refreshed.
#[derive(Debug, Clone)]
pub struct MutationResultDto {
    /// The table's state.
    pub snapshot: SnapshotDto,
    /// The Sources panel's state.
    pub catalogue: CatalogueDto,
}

/// One message-kind checkbox.
#[derive(Debug, Clone)]
pub struct MessageKindDto {
    /// The kind's wire identifier.
    pub id: String,
    /// The checkbox label.
    pub label: String,
    /// The column it sits in, by wire identifier; `None` for standalone boxes.
    pub category: Option<String>,
    /// Whether it is ticked.
    pub enabled: bool,
}

/// The wire identifier of a Filter column.
pub open spec fn category_wire_id(category: MessageCategory) -> Seq<char> {
    match category {
        MessageCategory::VoiceMessages => "voiceMessages"@,
        MessageCategory::SystemCommon => "systemCommon"@,
        MessageCategory::RealTime => "realTime"@,
    }
}

/// Whether a checkbox entry shows this kind.
pub open spec fn shows_kind(d: MessageKindDto, kind: MessageKind, enabled: bool) -> bool {
    &&& d.id@ == kind_id(kind)
    &&& d.label@ == kind_label(kind)
    &&& opt_text(d.category) == match kind_category(kind) {
        Some(c) => Some(category_wire_id(c)),
        None => None::<Seq<char>>,
    }
    &&& d.enabled == enabled
}

/// The wire identifier of a Filter column.
fn category_id(category: MessageCategory) -> (s: &'static str)
    ensures
        s@ == category_wire_id(category),
{
    match category {
        MessageCategory::VoiceMessages => "voiceMessages",
        MessageCategory::SystemCommon => "systemCommon",
        MessageCategory::RealTime => "realTime",
    }
}

/// One checkbox entry.
fn kind_dto(kind: MessageKind, enabled: bool) -> (d: MessageKindDto)
    ensures
        shows_kind(d, kind, enabled),
{
    MessageKindDto {
        id: to_string(kind.id()),
        label: to_string(kind.label()),
        category: match kind.category() {
            Some(c) => Some(to_string(category_id(c))),
            None => None,
        },
        enabled,
    }
}

/// One Filter column.
#[derive(Debug, Clone)]
pub struct MessageCategoryDto {
    /// The column's wire identifier.
    pub id: String,
    /// The column heading.
    pub label: String,
    /// The heading's tri-state checkbox.
    pub state: CheckStateDto,
    /// The column's checkboxes, in order.
    pub kinds: Vec<MessageKindDto>,
}

/// The channel radio pair, as the interface shows it.
#[derive(Debug, Clone, Copy, PartialEq, Eq, Structural)]
pub enum ChannelModeDto {
    AllChannels,
    OneChannel(u8),
}

/// The Filter panel's state.
#[derive(Debug, Clone)]
pub struct FilterViewDto {
    /// The three columns.
    pub categories: Vec<MessageCategoryDto>,
    /// The checkboxes outside any column.
    pub standalone: Vec<MessageKindDto>,
    /// The channel radio pair.
    pub channel_mode: ChannelModeDto,
    /// The prefix rules, in the order they were added.
    pub rules: Vec<DataPrefixRuleDto>,
}

/// The kinds of one Filter column, or the standalone kinds for `None`, in order.
pub open spec fn kinds_in(category: Option<MessageCategory>) -> Seq<MessageKind> {
    crate::filter::all_kinds().filter(|k: MessageKind| kind_category(k) == category)
}

/// Whether a list of checkbox entries shows these kinds, ticked as `ticked` says.
pub open spec fn shows_kinds(d: Seq<MessageKindDto>, kinds: Seq<MessageKind>, ticked: Seq<MessageKind>) -> bool {
    &&& d.len() == kinds.len()
    &&& forall|i: int| 0 <= i < d.len() ==> shows_kind(#[trigger] d[i], kinds[i], ticked.contains(kinds[i]))
}

/// The checkbox entries of one Filter column, or the standalone ones.
fn kind_dtos(ticked: &[MessageKind], category: Option<MessageCategory>) -> (d: Vec<MessageKindDto>)
    ensures
        shows_kinds(d@, kinds_in(category), ticked@),
{
    let all = crate::filter::all_message_kinds();
    let mut d: Vec<MessageKindDto> = Vec::new();
    let mut i: usize = 0;
    while i < all.len()
        invariant
            i <= all@.len(),
            all@ == crate::filter::all_kinds(),
            shows_kinds(
                d@,
                all@.take(i as int).filter(|k: MessageKind| kind_category(k) == category),
                ticked@,
            ),
        decreases all@.len() - i,
    {
        proof {
            assert(all@.take(i + 1).drop_last() =~= all@.take(i as int));
            assert(all@.take(i + 1).last() == all@[i as int]);
            reveal_with_fuel(Seq::filter, 1);
        }
        let kind = all[i];
        if kind.category() == category {
            d.push(kind_dto(kind, crate::filter::contains_kind(ticked, kind)));
        }
        i = i + 1;
    }
    assert(all@.take(i as int) =~= all@);
    d
}

/// The channel radio pair as the interface shows it.
pub open spec fn channel_mode_dto(mode: ChannelMode) -> ChannelModeDto {
    match mode {
        ChannelMode::AllChannels => ChannelModeDto::AllChannels,
        ChannelMode::OneChannel(c) => ChannelModeDto::OneChannel(c@),
    }
}

/// The Filter panel's state, read off the monitor: the three columns in order
/// with their checkboxes, the standalone checkboxes, the channel pair, and the
/// prefix rules.
pub fn filter_view(monitor: &Monitor) -> (d: FilterViewDto)
    ensures
        d.categories@.len() == 3,
        forall|i: int|
            0 <= i < 3 ==> ({
                let c = #[trigger] d.categories@[i];
                let category = crate::message::all_categories()[i];
                &&& c.id@ == category_wire_id(category)
                &&& c.label@ == category_label(category)
                &&& c.state == check_state_dto(
                    check_state_of(
                        crate::filter::category_ticks(monitor.filter_state().kinds@, category),
                    ),
                )
                &&& shows_kinds(c.kinds@, kinds_in(Some(category)), monitor.filter_state().kinds@)
            }),
        shows_kinds(d.standalone@, kinds_in(None), monitor.filter_state().kinds@),
        d.channel_mode == channel_mode_dto(monitor.filter_state().channel_mode),
        d.rules@.len() == monitor.filter_state().data_filter.rules@.len(),
        forall|i: int|
            0 <= i < d.rules@.len() ==> (#[trigger] d.rules@[i]).prefix@
                == monitor.filter_state().data_filter.rules@[i].prefix@ && d.rules@[i].kind
                == prefix_mode_dto(monitor.filter_state().data_filter.rules@[i].kind),
{
    let filter = monitor.filter();
    let all = MessageCategory::ALL;
    assert(all@ == crate::message::all_categories());
    let mut categories: Vec<MessageCategoryDto> = Vec::new();
    let mut i: usize = 0;
    while i < 3
        invariant
            i <= 3,
            all@ == crate::message::all_categories(),
            *filter == monitor.filter_state(),
            categories@.len() == i,
            forall|k: int|
                0 <= k < i ==> ({
                    let c = #[trigger] categories@[k];
                    let category = crate::message::all_categories()[k];
                    &&& c.id@ == category_wire_id(category)
                    &&& c.label@ == category_label(category)
                    &&& c.state == check_state_dto(
                        check_state_of(
                            crate::filter::category_ticks(monitor.filter_state().kinds@, category),
                        ),
                    )
                    &&& shows_kinds(
                        c.kinds@,
                        kinds_in(Some(category)),
                        monitor.filter_state().kinds@,
                    )
                }),
        decreases 3 - i,
    {
        let category = all[i];
        categories.push(
            MessageCategoryDto {
                id: to_string(category_id(category)),
                label: to_string(category.label()),
                state: CheckStateDto::from(filter.category_state(category)),
                kinds: kind_dtos(filter.kinds.as_slice(), Some(category)),
            },
        );
        i = i + 1;
    }
    let mut rules: Vec<DataPrefixRuleDto> = Vec::new();
    let mut j: usize = 0;
    while j < filter.data_filter.rules.len()
        invariant
            j <= filter.data_filter.rules@.len(),
            *filter == monitor.filter_state(),
            rules@.len() == j,
            forall|k: int|
                0 <= k < j ==> (#[trigger] rules@[k]).prefix@ == filter.data_filter.rules@[k].prefix@
                    && rules@[k].kind == prefix_mode_dto(filter.data_filter.rules@[k].kind),
        decreases filter.data_filter.rules@.len() - j,
    {
        rules.push(DataPrefixRuleDto::of(&filter.data_filter.rules[j]));
        j = j + 1;
    }
    FilterViewDto {
        categories,
        standalone: kind_dtos(filter.kinds.as_slice(), None),
        channel_mode: match filter.channel_mode {
            ChannelMode::AllChannels => ChannelModeDto::AllChannels,
            ChannelMode::OneChannel(channel) => ChannelModeDto::OneChannel(channel.get()),
        },
        rules,
    }
}

/// One column's header entry.
#[derive(Debug, Clone)]
pub struct ColumnDto {
    /// The column's wire identifier.
    pub id: String,
    /// The header label.
    pub label: String,
    /// Whether it is shown.
    pub visible: bool,
}

/// Every column, in display order, with whether it is shown.
pub fn columns(monitor: &Monitor) -> (d: Vec<ColumnDto>)
    ensures
        d@.len() == 5,
        forall|i: int|
            0 <= i < 5 ==> (#[trigger] d@[i]).id@ == column_id(all_columns()[i]) && d@[i].label@
                == column_label(all_columns()[i]) && d@[i].visible == !monitor.column_state().hides(
                all_columns()[i],
            ),
{
    let all = Column::ALL;
    assert(all@ == all_columns());
    let mut d: Vec<ColumnDto> = Vec::new();
    let mut i: usize = 0;
    while i < 5
        invariant
            i <= 5,
            all@ == all_columns(),
            d@.len() == i,
            forall|k: int|
                0 <= k < i ==> (#[trigger] d@[k]).id@ == column_id(all_columns()[k]) && d@[k].label@
                    == column_label(all_columns()[k]) && d@[k].visible
                    == !monitor.column_state().hides(all_columns()[k]),
        decreases 5 - i,
    {
        let column = all[i];
        d.push(
            ColumnDto {
                id: to_string(column.id()),
                label: to_string(column.label()),
                visible: monitor.columns().is_visible(column),
            },
        );
        i = i + 1;
    }
    d
}

/// One place that can be sent to, as the picker lists it.
#[derive(Debug, Clone)]
pub struct TargetDto {
    /// Session identity.
    pub id: u32,
    /// The name shown in the picker.
    pub name: String,
    /// A machine destination, or this application's published source.
    pub kind: TargetKindDto,
}

/// What sort of place a target is, as the interface names it.
#[derive(Debug, Clone, Copy, PartialEq, Eq, Structural)]
pub enum TargetKindDto {
    Destination,
    PublishedSource,
}

/// A target kind as the interface names it.
pub open spec fn target_kind_dto(kind: TargetKind) -> TargetKindDto {
    match kind {
        TargetKind::Destination => TargetKindDto::Destination,
        TargetKind::PublishedSource => TargetKindDto::PublishedSource,
    }
}

impl From<TargetKind> for TargetKindDto {
    fn from(kind: TargetKind) -> (d: Self) {
        match kind {
            TargetKind::Destination => TargetKindDto::Destination,
            TargetKind::PublishedSource => TargetKindDto::PublishedSource,
        }
    }
}

impl vstd::std_specs::convert::FromSpecImpl<TargetKind> for TargetKindDto {
    open spec fn obeys_from_spec() -> bool {
        true
    }

    open spec fn from_spec(kind: TargetKind) -> Self {
        target_kind_dto(kind)
    }
}

/// The target picker.
#[derive(Debug, Clone)]
pub struct TargetsDto {
    /// The places that can be sent to now.
    pub targets: Vec<TargetDto>,
    /// The chosen one, when it is among them.
    pub chosen: Option<u32>,
}

/// The target picker, read off the sender.
pub fn targets(sender: &Sender) -> (d: TargetsDto)
    ensures
        d.targets@.len() == sender.targets_spec().len(),
        forall|i: int|
            0 <= i < d.targets@.len() ==> (#[trigger] d.targets@[i]).id
                == sender.targets_spec()[i].id@ && d.targets@[i].name@
                == sender.targets_spec()[i].name@ && d.targets@[i].kind == target_kind_dto(
                sender.targets_spec()[i].kind,
            ),
        match sender.chosen_key() {
            Some(key) => match d.chosen {
                Some(id) => exists|i: int|
                    crate::sender::first_keyed(sender.targets_spec(), key, i) && id
                        == sender.targets_spec()[i].id@,
                None => crate::sender::none_keyed(sender.targets_spec(), key),
            },
            None => d.chosen is None,
        },
{
    let listed = sender.targets();
    let mut rows: Vec<TargetDto> = Vec::new();
    let mut i: usize = 0;
    while i < listed.len()
        invariant
            i <= listed@.len(),
            listed@ == sender.targets_spec(),
            rows@.len() == i,
            forall|k: int|
                0 <= k < i ==> (#[trigger] rows@[k]).id == listed@[k].id@ && rows@[k].name@
                    == listed@[k].name@ && rows@[k].kind == target_kind_dto(listed@[k].kind),
        decreases listed@.len() - i,
    {
        let target = &listed[i];
        rows.push(
            TargetDto {
                id: target.id.get(),
                name: target.name.clone(),
                kind: TargetKindDto::from(target.kind),
            },
        );
        i = i + 1;
    }
    let chosen = match sender.chosen_target() {
        Some(target) => Some(target.id.get()),
        None => None,
    };
    TargetsDto { targets: rows, chosen }
}

/// Whether the platform can publish a source, as the interface shows it.
#[derive(Debug, Clone)]
pub enum PublicationSupportDto {
    Supported,
    Unsupported { detail: String },
}

/// Whether a support value is shown as this one.
pub open spec fn shows_support(d: PublicationSupportDto, s: PublicationSupport) -> bool {
    match (d, s) {
        (PublicationSupportDto::Supported, PublicationSupport::Supported) => true,
        (
            PublicationSupportDto::Unsupported { detail: x },
            PublicationSupport::Unsupported { detail: y },
        ) => x@ == y@,
        _ => false,
    }
}

impl PublicationSupportDto {
    /// The support as the interface shows it.
    pub fn of(support: &PublicationSupport) -> (d: Self)
        ensures
            shows_support(d, *support),
    {
        match support {
            PublicationSupport::Supported => PublicationSupportDto::Supported,
            PublicationSupport::Unsupported { detail } => PublicationSupportDto::Unsupported {
                detail: detail.clone(),
            },
        }
    }
}

/// The published source's panel.
#[derive(Debug, Clone)]
pub struct PublicationDto {
    /// The name other programs see.
    pub name: String,
    /// Whether it is published now.
    pub published: bool,
    /// Whether this platform can publish at all.
    pub support: PublicationSupportDto,
    /// The last publication failure, until cleared.
    pub error: Option<String>,
}

/// One entry of the message-type picker.
#[derive(Debug, Clone)]
pub struct SendableKindDto {
    /// The kind's wire identifier.
    pub id: String,
    /// The picker label.
    pub label: String,
}

/// One editable value of the composition.
#[derive(Debug, Clone)]
pub struct FieldDto {
    /// The field's wire identifier.
    pub id: String,
    /// What the value means.
    pub label: String,
    /// The lowest accepted number; `None` for a payload.
    pub min: Option<u16>,
    /// The highest accepted number; `None` for a payload.
    pub max: Option<u16>,
    /// The current value, rendered.
    pub value: String,
}

/// The composer's panel.
#[derive(Debug, Clone)]
pub struct CompositionDto {
    /// The kind being composed, by wire identifier; `None` for hand-typed
    /// bytes, and for a message no kind composes.
    pub kind: Option<String>,
    /// Every kind the picker offers, in order.
    pub kinds: Vec<SendableKindDto>,
    /// The editable values, in order.
    pub fields: Vec<FieldDto>,
    /// The bytes that would be sent, as spaced hexadecimal; empty when none.
    pub preview: String,
    /// Why there are no bytes to send, when there are none.
    pub preview_error: Option<String>,
}

/// The message of a composition.
pub open spec fn composed_message(c: CompositionModel) -> crate::message::MessageModel {
    match c {
        CompositionModel::Guided { message } => message,
        CompositionModel::Raw { message, .. } => message,
    }
}

/// The bytes a composition would send, if it can send any.
pub open spec fn composed_bytes(c: CompositionModel) -> Option<Seq<u8>> {
    match c {
        CompositionModel::Guided { message } => encoding(message),
        CompositionModel::Raw { bytes, .. } => Some(bytes),
    }
}

/// The composer's preview line and, when nothing can be sent, why.
pub open spec fn preview_of(c: CompositionModel) -> (Seq<char>, Option<Seq<char>>) {
    match composed_bytes(c) {
        Some(b) => (spaced_hex_text(b), None),
        None => (
            Seq::empty(),
            match composed_message(c) {
                crate::message::MessageModel::Invalid { reason, .. } => Some(
                    "this message cannot be transmitted: "@ + crate::message::reason_label(reason),
                ),
                _ => None,
            },
        ),
    }
}

/// Whether a field entry shows this field of a composition.
pub open spec fn shows_field(d: FieldDto, f: FieldModel, c: CompositionModel) -> bool {
    &&& d.id@ == field_id_text(f.id)
    &&& d.label@ == f.label
    &&& match f.kind {
        FieldKind::Number { min, max } => d.min == Some(min) && d.max == Some(max),
        FieldKind::Bytes => d.min is None && d.max is None,
    }
    &&& d.value@ == match c {
        CompositionModel::Guided { message } => match field_reading(message, f.id) {
            Some(v) => v,
            None => Seq::<char>::empty(),
        },
        CompositionModel::Raw { .. } => Seq::<char>::empty(),
    }
}

/// The composer's panel, read off the sender.
pub fn composition(sender: &Sender) -> (d: CompositionDto)
    ensures
        opt_text(d.kind) == match sender.composition_spec() {
            CompositionModel::Guided { message } => match kind_of(message) {
                Some(k) => Some(sendable_id(k)),
                None => None::<Seq<char>>,
            },
            CompositionModel::Raw { .. } => None::<Seq<char>>,
        },
        d.kinds@.len() == 18,
        forall|i: int|
            0 <= i < 18 ==> (#[trigger] d.kinds@[i]).id@ == sendable_id(
                crate::sendable::all_sendables()[i],
            ) && d.kinds@[i].label@ == sendable_label(crate::sendable::all_sendables()[i]),
        d.fields@.len() == composition_fields(sender.composition_spec()).len(),
        forall|i: int|
            0 <= i < d.fields@.len() ==> shows_field(
                #[trigger] d.fields@[i],
                composition_fields(sender.composition_spec())[i],
                sender.composition_spec(),
            ),
        d.preview@ == preview_of(sender.composition_spec()).0,
        opt_text(d.preview_error) == preview_of(sender.composition_spec()).1,
{
    let composition = sender.composition();
    let (preview, preview_error) = match composition.bytes() {
        Ok(bytes) => (spaced_hex(bytes.as_slice()), None),
        Err(error) => {
            let text = error.describe();
            (String::new(), Some(text))
        },
    };
    let kind = match composition {
        Composition::Guided { message } => match SendableKind::of(message) {
            Some(kind) => Some(to_string(kind.id())),
            None => None,
        },
        Composition::Raw { .. } => None,
    };
    let all = SendableKind::ALL;
    assert(all@ == crate::sendable::all_sendables());
    let mut kinds: Vec<SendableKindDto> = Vec::new();
    let mut i: usize = 0;
    while i < 18
        invariant
            i <= 18,
            all@ == crate::sendable::all_sendables(),
            kinds@.len() == i,
            forall|k: int|
                0 <= k < i ==> (#[trigger] kinds@[k]).id@ == sendable_id(
                    crate::sendable::all_sendables()[k],
                ) && kinds@[k].label@ == sendable_label(crate::sendable::all_sendables()[k]),
        decreases 18 - i,
    {
        let k = all[i];
        kinds.push(SendableKindDto { id: to_string(k.id()), label: to_string(k.label()) });
        i = i + 1;
    }
    let specs = composition.fields();
    let mut fields: Vec<FieldDto> = Vec::new();
    let mut j: usize = 0;
    while j < specs.len()
        invariant
            j <= specs@.len(),
            composition@ == sender.composition_spec(),
            crate::sendable::field_models(specs@) == composition_fields(sender.composition_spec()),
            fields@.len() == j,
            forall|k: int|
                0 <= k < j ==> shows_field(
                    #[trigger] fields@[k],
                    composition_fields(sender.composition_spec())[k],
                    sender.composition_spec(),
                ),
        decreases specs@.len() - j,
    {
        let spec = &specs[j];
        proof {
            assert(crate::sendable::field_models(specs@)[j as int] == specs@[j as int]@);
        }
        let (min, max) = match spec.kind {
            FieldKind::Number { min, max } => (Some(min), Some(max)),
            FieldKind::Bytes => (None, None),
        };
        let value = match composition.field_value(spec.id) {
            Some(v) => v,
            None => String::new(),
        };
        fields.push(
            FieldDto { id: to_string(spec.id.id()), label: to_string(spec.label), min, max, value },
        );
        j = j + 1;
    }
    CompositionDto { kind, kinds, fields, preview, preview_error }
}

/// One entry of the request library.
#[derive(Debug, Clone)]
pub struct RequestDto {
    /// The name, which is its identity.
    pub name: String,
    /// What it does.
    pub description: String,
    /// The bytes it would send, as spaced hexadecimal; empty when none.
    pub preview: String,
    /// Whether it ships with the application.
    pub built_in: bool,
}

/// Whether a library entry shows this request.
pub open spec fn shows_request(d: RequestDto, r: RequestModel) -> bool {
    &&& d.name@ == r.name
    &&& d.description@ == r.description
    &&& d.preview@ == match composed_bytes(r.composition) {
        Some(b) => spaced_hex_text(b),
        None => Seq::<char>::empty(),
    }
    &&& d.built_in == (r.origin == RequestOrigin::BuiltIn)
}

/// The request library, built-ins first, read off the sender.
pub fn requests(sender: &Sender) -> (d: Vec<RequestDto>)
    ensures
        d@.len() == sender.library_requests().len(),
        forall|i: int|
            0 <= i < d@.len() ==> shows_request(#[trigger] d@[i], sender.library_requests()[i]),
{
    let library = sender.library();
    let all = library.all();
    let mut d: Vec<RequestDto> = Vec::new();
    let mut i: usize = 0;
    while i < all.len()
        invariant
            i <= all@.len(),
            all@.map_values(|r: &crate::request::Request| r@) == library.requests(),
            d@.len() == i,
            forall|k: int| 0 <= k < i ==> shows_request(#[trigger] d@[k], library.requests()[k]),
        decreases all@.len() - i,
    {
        let request = all[i];
        proof {
            assert(all@.map_values(|r: &crate::request::Request| r@)[i as int] == request@);
        }
        let preview = match request.composition.bytes() {
            Ok(bytes) => spaced_hex(bytes.as_slice()),
            Err(_) => String::new(),
        };
        d.push(
            RequestDto {
                name: to_string(request.name.as_str()),
                description: request.description.clone(),
                preview,
                built_in: match request.origin {
                    RequestOrigin::BuiltIn => true,
                    RequestOrigin::Saved => false,
                },
            },
        );
        i = i + 1;
    }
    d
}

/// One entry of the record of sends.
#[derive(Debug, Clone)]
pub struct SendRecordDto {
    /// The record's identity.
    pub id: u32,
    /// When the send was attempted.
    pub time: String,
    /// The target's name at the time.
    pub target: String,
    /// The message's name.
    pub message: String,
    /// The bytes sent, as spaced hexadecimal.
    pub data: String,
    /// Why it failed, if it did.
    pub failure: Option<String>,
}

/// Whether a record entry shows this record.
pub open spec fn shows_record(d: SendRecordDto, r: crate::send_record::SendRecord) -> bool {
    &&& d.id == r.id@
    &&& d.time@ == clock_display(r.time@ as nat)
    &&& d.target@ == r.target@
    &&& d.message@ == r.message@.display_name()
    &&& d.data@ == spaced_hex_text(r.bytes@)
    &&& opt_text(d.failure) == match r.outcome {
        SendOutcome::Sent => None,
        SendOutcome::Failed { detail } => Some(detail@),
    }
}

/// The record of sends, oldest first, read off the sender.
pub fn send_records(sender: &Sender) -> (d: Vec<SendRecordDto>)
    ensures
        d@.len() == sender.records_spec().len(),
        forall|i: int|
            0 <= i < d@.len() ==> shows_record(#[trigger] d@[i], sender.records_spec()[i]),
{
    let records = sender.records();
    let mut d: Vec<SendRecordDto> = Vec::new();
    let mut i: usize = 0;
    while i < records.len()
        invariant
            i <= records@.len(),
            records@.map_values(|x: &crate::send_record::SendRecord| *x) == sender.records_spec(),
            d@.len() == i,
            forall|k: int| 0 <= k < i ==> shows_record(#[trigger] d@[k], sender.records_spec()[k]),
        decreases records@.len() - i,
    {
        let record = records[i];
        proof {
            assert(records@.map_values(|x: &crate::send_record::SendRecord| *x)[i as int] == *record);
        }
        d.push(
            SendRecordDto {
                id: record.id.get(),
                time: record.time.to_display(),
                target: record.target.clone(),
                message: to_string(record.message.display_name()),
                data: spaced_hex(record.bytes.as_slice()),
                failure: match &record.outcome {
                    SendOutcome::Sent => None,
                    SendOutcome::Failed { detail } => Some(detail.clone()),
                },
            },
        );
        i = i + 1;
    }
    d
}

/// The whole send screen.
#[derive(Debug, Clone)]
pub struct SendViewDto {
    /// The target picker.
    pub targets: TargetsDto,
    /// The published source's panel.
    pub publication: PublicationDto,
    /// The composer's panel.
    pub composition: CompositionDto,
    /// The request library.
    pub requests: Vec<RequestDto>,
    /// The record of sends.
    pub records: Vec<SendRecordDto>,
}

/// The whole send screen, read off the sender.
pub fn send_view(sender: &Sender) -> (d: SendViewDto)
    ensures
        d.publication.name@ == sender.publication_spec().name@,
        d.publication.published == sender.publication_spec().published,
        shows_support(d.publication.support, sender.capabilities_spec().publication),
        opt_text(d.publication.error) == sender.publication_error_spec(),
        d.targets.targets@.len() == sender.targets_spec().len(),
        d.requests@.len() == sender.library_requests().len(),
        d.records@.len() == sender.records_spec().len(),
        d.composition.preview@ == preview_of(sender.composition_spec()).0,
{
    let publication = PublicationDto {
        name: to_string(sender.publication().name.as_str()),
        published: sender.publication().published,
        support: PublicationSupportDto::of(&sender.capabilities().publication),
        error: match sender.publication_error() {
            Some(e) => Some(to_string(e)),
            None => None,
        },
    };
    SendViewDto {
        targets: targets(sender),
        publication,
        composition: composition(sender),
        requests: requests(sender),
        records: send_records(sender),
    }
}

} // verus!
