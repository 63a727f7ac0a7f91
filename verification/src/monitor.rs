//! The monitor: the one place where an arriving event and the user's current
//! settings meet.
//!
//! Selection decides what is retained; the Filter panel decides only what is
//! shown. An event from a selected source is retained whatever the filter says,
//! so narrowing a filter loses nothing and widening it brings events back.
//! Pausing stops retention altogether, and deselecting a source drops what it
//! had contributed.

use crate::appearance::AppearanceSettings;
use crate::capture::CaptureState;
use crate::column::{Column, ColumnVisibility};
use crate::display::DisplaySettings;
use crate::error::CoreError;
use crate::event::MidiEvent;
use crate::event_log::{from_none_of, keep_newest, EventLog};
use crate::filter::{
    contradiction_at, duplicate_at, filter_admits, no_contradiction, no_duplicate, DataPrefixRule,
    FilterSettings,
};
use crate::ids::{
    HexPrefix, RetentionLimit, SourceGroupId, SourceId, SourceKey, SourceKeyModel, TickRate,
};
use crate::ports::{MidiSystemStatus, PlatformCapabilities};
use crate::settings::{PersistedSettings, SendSettings};
use crate::source::{
    check_state_of, contains_key, deselected_ids_of, first_with_id, has_key, selection_for, group_selections_of, no_source_with_id, selected_keys_of, ids_of, key_views, keys_contain, keys_of,
    CheckState, Source, SourceCatalogue,
};
use vstd::prelude::*;

verus! {

/// The parts of a monitor an operation may change.
pub enum MonitorPart {
    /// The sources, their selection, and the remembered selection.
    Selection,
    /// The retained events and the cap.
    Log,
    /// The Filter panel's state.
    Filter,
    /// Which columns are shown.
    Columns,
    /// Whether arriving events are taken in.
    Capture,
    /// How events are written.
    Display,
    /// How the window is painted.
    Appearance,
    /// Whether the MIDI system can be reached.
    Status,
}

/// Whether the source with this id, the first carrying it, is selected.
pub open spec fn selected_in(sources: Seq<Source>, id: SourceId) -> bool {
    exists|i: int| first_with_id(sources, id, i) && sources[i].selected
}

/// Sources with their selection set by whether their key is listed.
pub open spec fn with_selection(sources: Seq<Source>, keys: Seq<SourceKey>) -> Seq<Source> {
    Seq::new(
        sources.len(),
        |i: int| Source { selected: keys_contain(keys, sources[i].key@), ..sources[i] },
    )
}

/// Keys appended to a list, skipping each that the list already holds.
pub open spec fn appended_new(acc: Seq<SourceKeyModel>, more: Seq<SourceKeyModel>) -> Seq<
    SourceKeyModel,
>
    decreases more.len(),
{
    if more.len() == 0 {
        acc
    } else {
        let earlier = appended_new(acc, more.drop_last());
        if earlier.contains(more.last()) {
            earlier
        } else {
            earlier.push(more.last())
        }
    }
}

/// What is remembered after a selection change: keys of sources that are not
/// present are kept, so a device unplugged now is still selected when it
/// returns; the present sources' keys are replaced by those selected now.
pub open spec fn remembered_after(remembered: Seq<SourceKeyModel>, sources: Seq<Source>) -> Seq<
    SourceKeyModel,
> {
    appended_new(
        remembered.filter(|k: SourceKeyModel| !keys_of(sources).contains(k)),
        selected_keys_of(sources),
    )
}

/// Whether the first source with this source's id is also the source at `i`,
/// and some source with the same id carries a remembered key.
pub open spec fn reselected(sources: Seq<Source>, remembered: Seq<SourceKeyModel>, i: int, upto: int) -> bool {
    &&& first_with_id(sources, sources[i].id, i)
    &&& exists|j: int|
        0 <= j < upto && sources[j].id == sources[i].id && remembered.contains(
            #[trigger] sources[j].key@,
        )
}

/// Sources with every one whose key is remembered selected as well.
pub open spec fn with_remembered(sources: Seq<Source>, remembered: Seq<SourceKeyModel>) -> Seq<Source> {
    Seq::new(
        sources.len(),
        |i: int|
            Source {
                selected: sources[i].selected || reselected(
                    sources,
                    remembered,
                    i,
                    sources.len() as int,
                ),
                ..sources[i]
            },
    )
}

/// Whether two filter states admit the same events: the same kinds, the same
/// channel rule, and the same prefix rules in the same order.
pub open spec fn same_filter(a: FilterSettings, b: FilterSettings) -> bool {
    &&& a.kinds@ == b.kinds@
    &&& a.channel_mode == b.channel_mode
    &&& a.data_filter.rules@.len() == b.data_filter.rules@.len()
    &&& forall|i: int|
        0 <= i < a.data_filter.rules@.len() ==> (#[trigger] a.data_filter.rules@[i]).prefix@
            == b.data_filter.rules@[i].prefix@ && a.data_filter.rules@[i].kind
            == b.data_filter.rules@[i].kind
}

/// The monitor's state and the operations the interface can ask of it.
#[derive(Debug)]
pub struct Monitor {
    catalogue: SourceCatalogue,
    log: EventLog,
    filter: FilterSettings,
    columns: ColumnVisibility,
    remembered: Vec<SourceKey>,
    status: MidiSystemStatus,
    capabilities: PlatformCapabilities,
    capture: CaptureState,
    display: DisplaySettings,
    appearance: AppearanceSettings,
    tick_rate: TickRate,
}

impl Monitor {
    /// The sources, as the catalogue holds them.
    pub closed spec fn sources(&self) -> Seq<Source> {
        self.catalogue@
    }

    /// The retained events, oldest first.
    pub closed spec fn retained(&self) -> Seq<MidiEvent> {
        self.log.retained()
    }

    /// The retention cap.
    pub closed spec fn cap(&self) -> RetentionLimit {
        self.log.cap()
    }

    /// The Filter panel's state.
    pub closed spec fn filter_state(&self) -> FilterSettings {
        self.filter
    }

    /// Which columns are shown.
    pub closed spec fn column_state(&self) -> ColumnVisibility {
        self.columns
    }

    /// The remembered selection, by key.
    pub closed spec fn remembered_keys(&self) -> Seq<SourceKeyModel> {
        key_views(self.remembered@)
    }

    /// Whether arriving events are taken in.
    pub closed spec fn capture_spec(&self) -> CaptureState {
        self.capture
    }

    /// The display settings.
    pub closed spec fn display_spec(&self) -> DisplaySettings {
        self.display
    }

    /// The appearance settings.
    pub closed spec fn appearance_spec(&self) -> AppearanceSettings {
        self.appearance
    }

    /// The host clock's rate.
    pub closed spec fn tick_rate_spec(&self) -> TickRate {
        self.tick_rate
    }

    /// Whether the MIDI system could be reached.
    pub closed spec fn status_spec(&self) -> MidiSystemStatus {
        self.status
    }

    /// What the platform can do.
    pub closed spec fn capabilities_spec(&self) -> PlatformCapabilities {
        self.capabilities
    }

    /// Whether every part of the monitor not in `changed` is as in `other`.
    pub open spec fn same_except(&self, other: &Self, changed: Set<MonitorPart>) -> bool {
        &&& (changed.contains(MonitorPart::Selection) || (self.sources() == other.sources()
            && self.remembered_keys() == other.remembered_keys()))
        &&& (changed.contains(MonitorPart::Log) || (self.retained() == other.retained()
            && self.cap() == other.cap()))
        &&& (changed.contains(MonitorPart::Filter) || self.filter_state() == other.filter_state())
        &&& (changed.contains(MonitorPart::Columns) || self.column_state() == other.column_state())
        &&& (changed.contains(MonitorPart::Capture) || self.capture_spec() == other.capture_spec())
        &&& (changed.contains(MonitorPart::Display) || self.display_spec() == other.display_spec())
        &&& (changed.contains(MonitorPart::Appearance) || self.appearance_spec()
            == other.appearance_spec())
        &&& (changed.contains(MonitorPart::Status) || self.status_spec() == other.status_spec())
        &&& self.tick_rate_spec() == other.tick_rate_spec()
        &&& self.capabilities_spec() == other.capabilities_spec()
    }

    /// Everything but the sources and the remembered selection, unchanged.
    pub open spec fn same_except_selection(&self, other: &Self) -> bool {
        &&& self.retained() == other.retained()
        &&& self.cap() == other.cap()
        &&& self.filter_state() == other.filter_state()
        &&& self.column_state() == other.column_state()
        &&& self.capture_spec() == other.capture_spec()
        &&& self.display_spec() == other.display_spec()
        &&& self.appearance_spec() == other.appearance_spec()
        &&& self.tick_rate_spec() == other.tick_rate_spec()
        &&& self.status_spec() == other.status_spec()
        &&& self.capabilities_spec() == other.capabilities_spec()
    }

    /// Everything but the retained events and the cap, unchanged.
    pub open spec fn same_except_log(&self, other: &Self) -> bool {
        &&& self.sources() == other.sources()
        &&& self.remembered_keys() == other.remembered_keys()
        &&& self.filter_state() == other.filter_state()
        &&& self.column_state() == other.column_state()
        &&& self.capture_spec() == other.capture_spec()
        &&& self.display_spec() == other.display_spec()
        &&& self.appearance_spec() == other.appearance_spec()
        &&& self.tick_rate_spec() == other.tick_rate_spec()
        &&& self.status_spec() == other.status_spec()
        &&& self.capabilities_spec() == other.capabilities_spec()
    }

    /// Starts the monitor.
    ///
    /// With saved settings, a source is selected exactly when its key was saved,
    /// and the saved keys are remembered whether or not their sources are
    /// present. Without, every present source is selected: a first launch shows
    /// traffic rather than an empty window. Nothing is retained yet, and the
    /// monitor is running.
    pub fn new(
        sources: Vec<Source>,
        saved: Option<PersistedSettings>,
        status: MidiSystemStatus,
        capabilities: PlatformCapabilities,
        tick_rate: TickRate,
    ) -> (m: Self)
        ensures
            m.retained() == Seq::<MidiEvent>::empty(),
            m.capture_spec() == CaptureState::Running,
            m.status_spec() == status,
            m.capabilities_spec() == capabilities,
            m.tick_rate_spec() == tick_rate,
            selection_agrees(m.sources(), m.remembered_keys()),
            match saved {
                Some(s) => {
                    &&& m.sources() == with_selection(sources@, s.selected_sources@)
                    &&& m.remembered_keys() == key_views(s.selected_sources@)
                    &&& m.cap() == s.retention
                    &&& m.filter_state() == s.filter
                    &&& m.column_state() == s.columns
                    &&& m.display_spec() == s.display
                    &&& m.appearance_spec() == s.appearance
                },
                None => {
                    &&& m.sources().len() == sources@.len()
                    &&& forall|i: int|
                        0 <= i < sources@.len() ==> #[trigger] m.sources()[i] == (Source {
                            selected: true,
                            ..sources@[i]
                        })
                    &&& m.remembered_keys() == keys_of(sources@)
                    &&& m.cap()@ == 1000
                    &&& m.filter_state().kinds@ == crate::filter::all_kinds()
                    &&& m.filter_state().channel_mode == crate::filter::ChannelMode::AllChannels
                    &&& m.filter_state().data_filter.rules@.len() == 0
                    &&& forall|c: Column| !m.column_state().hides(c)
                    &&& m.display_spec() == crate::display::default_display()
                    &&& m.appearance_spec() == AppearanceSettings::default_spec()
                },
            },
    {
        let ghost listed = sources@;
        let mut catalogue = SourceCatalogue::new(sources);
        let (settings, remembered) = match saved {
            Some(settings) => {
                catalogue.apply_selection(settings.selected_sources.as_slice());
                proof {
                    assert(catalogue@ =~= with_selection(listed, settings.selected_sources@));
                    lemma_built_selection_agrees(listed, settings.selected_sources@);
                }
                let remembered = copy_keys(settings.selected_sources.as_slice());
                (settings, remembered)
            },
            None => {
                let all = catalogue.present_keys();
                catalogue.apply_selection(all.as_slice());
                proof {
                    assert forall|i: int| 0 <= i < listed.len() implies keys_contain(
                        all@,
                        #[trigger] listed[i].key@,
                    ) by {
                        assert(key_views(all@).len() == all@.len());
                        assert(keys_of(listed).len() == listed.len());
                        assert(key_views(all@)[i] == keys_of(listed)[i]);
                        assert(all@[i]@ == listed[i].key@);
                    }
                }
                (PersistedSettings::default(), all)
            },
        };
        Monitor {
            catalogue,
            log: EventLog::new(settings.retention),
            filter: settings.filter,
            columns: settings.columns,
            display: settings.display,
            appearance: settings.appearance,
            remembered,
            status,
            capabilities,
            capture: CaptureState::Running,
            tick_rate,
        }
    }

    /// The display settings.
    pub fn display(&self) -> (d: DisplaySettings)
        ensures
            d == self.display_spec(),
    {
        self.display
    }

    /// The host clock's rate.
    pub fn tick_rate(&self) -> (r: TickRate)
        ensures
            r == self.tick_rate_spec(),
    {
        self.tick_rate
    }

    /// Replaces the display settings; no retained event changes.
    pub fn set_display(&mut self, display: DisplaySettings)
        ensures
            final(self).display_spec() == display,
            final(self).same_except(old(self), set![MonitorPart::Display]),
            final(self).retained() == old(self).retained(),
            final(self).filter_state() == old(self).filter_state(),
            final(self).sources() == old(self).sources(),
    {
        self.display = display;
    }

    /// The appearance settings.
    pub fn appearance(&self) -> (a: AppearanceSettings)
        ensures
            a == self.appearance_spec(),
    {
        self.appearance
    }

    /// Replaces the appearance settings; no retained event changes.
    pub fn set_appearance(&mut self, appearance: AppearanceSettings)
        ensures
            final(self).appearance_spec() == appearance,
            final(self).same_except(old(self), set![MonitorPart::Appearance]),
            final(self).retained() == old(self).retained(),
            final(self).filter_state() == old(self).filter_state(),
            final(self).sources() == old(self).sources(),
    {
        self.appearance = appearance;
    }

    /// Records whether the MIDI system can be reached.
    pub fn set_status(&mut self, status: MidiSystemStatus)
        ensures
            final(self).status_spec() == status,
            final(self).same_except(old(self), set![MonitorPart::Status]),
            final(self).retained() == old(self).retained(),
            final(self).sources() == old(self).sources(),
    {
        self.status = status;
    }

    /// Whether the MIDI system can be reached.
    pub fn status(&self) -> (s: &MidiSystemStatus)
        ensures
            *s == self.status_spec(),
    {
        &self.status
    }

    /// What the platform can do.
    pub fn capabilities(&self) -> (c: &PlatformCapabilities)
        ensures
            *c == self.capabilities_spec(),
    {
        &self.capabilities
    }

    /// Takes in one arriving event.
    ///
    /// While paused nothing is retained or streamed. An event from a source that
    /// is not selected is neither retained nor streamed. Otherwise it is
    /// retained whatever the filter says, evicting the oldest at the cap, and a
    /// copy is returned for streaming exactly when the filter admits it.
    pub fn ingest(&mut self, event: MidiEvent) -> (streamed: Option<MidiEvent>)
        ensures
            final(self).same_except_log(old(self)),
            final(self).cap() == old(self).cap(),
            old(self).capture_spec() == CaptureState::Running && selected_in(
                old(self).sources(),
                event.source,
            ) ==> final(self).retained() == keep_newest(
                old(self).retained().push(event),
                old(self).cap()@ as nat,
            ),
            !(old(self).capture_spec() == CaptureState::Running && selected_in(
                old(self).sources(),
                event.source,
            )) ==> final(self).retained() == old(self).retained() && streamed is None,
            streamed is Some <==> (old(self).capture_spec() == CaptureState::Running && selected_in(
                old(self).sources(),
                event.source,
            ) && filter_admits(old(self).filter_state(), event)),
            streamed matches Some(e) ==> e.id == event.id && e.arrival == event.arrival && e.source
                == event.source && e.message@ == event.message@ && e.raw@ == event.raw@,
    {
        match self.capture {
            CaptureState::Paused => {
                return None;
            },
            CaptureState::Running => {},
        }
        if !self.catalogue.is_selected(event.source) {
            return None;
        }
        let streamed = if self.filter.admits(&event) {
            Some(event.duplicate())
        } else {
            None
        };
        self.log.push(event);
        streamed
    }

    /// The retained events the filter admits, oldest first.
    pub fn visible_events(&self) -> (events: Vec<&MidiEvent>)
        ensures
            events@.map_values(|e: &MidiEvent| *e) == self.retained().filter(
                |e: MidiEvent| filter_admits(self.filter_state(), e),
            ),
    {
        self.log.view(&self.filter)
    }

    /// How many events are retained, before any filter is applied.
    pub fn retained_count(&self) -> (n: usize)
        ensures
            n == self.retained().len(),
    {
        self.log.len()
    }

    /// Whether any source is selected.
    pub fn is_monitoring(&self) -> (b: bool)
        ensures
            b == exists|i: int| 0 <= i < self.sources().len() && #[trigger] self.sources()[i].selected,
    {
        self.catalogue.any_selected()
    }

    /// Whether arriving events are taken in.
    pub fn capture_state(&self) -> (c: CaptureState)
        ensures
            c == self.capture_spec(),
    {
        self.capture
    }

    /// Pauses or resumes; nothing already retained changes.
    pub fn set_capture_state(&mut self, capture: CaptureState)
        ensures
            final(self).capture_spec() == capture,
            final(self).same_except(old(self), set![MonitorPart::Capture]),
            final(self).retained() == old(self).retained(),
            final(self).sources() == old(self).sources(),
            final(self).filter_state() == old(self).filter_state(),
    {
        self.capture = capture;
    }

    /// The source catalogue.
    pub fn catalogue(&self) -> (c: &SourceCatalogue)
        ensures
            c@ == self.sources(),
    {
        &self.catalogue
    }

    /// The Filter panel's state.
    pub fn filter(&self) -> (f: &FilterSettings)
        ensures
            *f == self.filter_state(),
    {
        &self.filter
    }

    /// Which columns are shown.
    pub fn columns(&self) -> (c: &ColumnVisibility)
        ensures
            *c == self.column_state(),
    {
        &self.columns
    }

    /// The retention cap.
    pub fn retention(&self) -> (r: RetentionLimit)
        ensures
            r == self.cap(),
    {
        self.log.limit()
    }

    /// A group's tri-state checkbox.
    pub fn group_state(&self, group: SourceGroupId) -> (state: CheckState)
        ensures
            state == check_state_of(group_selections_of(self.sources(), group)),
    {
        self.catalogue.group_state(group)
    }

    /// Replaces the message-kind and channel settings, keeping the prefix
    /// rules, which have their own add and remove operations. Nothing retained
    /// changes: the filter decides what is shown, never what is kept.
    pub fn set_filter(&mut self, kinds_and_channel: FilterSettings)
        ensures
            final(self).filter_state() == (FilterSettings {
                data_filter: old(self).filter_state().data_filter,
                ..kinds_and_channel
            }),
            final(self).same_except(old(self), set![MonitorPart::Filter]),
            final(self).retained() == old(self).retained(),
            final(self).sources() == old(self).sources(),
    {
        let mut incoming = kinds_and_channel;
        std::mem::swap(&mut incoming.data_filter, &mut self.filter.data_filter);
        self.filter = incoming;
    }

    /// Adds a prefix rule, or refuses it as the prefix filter does: a rule
    /// whose prefix is listed already is a duplicate, one overlapping a rule of
    /// the opposite kind is a contradiction, and any other is added.
    pub fn add_prefix_rule(&mut self, rule: DataPrefixRule) -> (r: Result<(), CoreError>)
        ensures
            ({
                let rules = old(self).filter_state().data_filter.rules@;
                match r {
                    Ok(()) => no_duplicate(rules, rule) && no_contradiction(rules, rule),
                    Err(CoreError::DuplicatePrefixRule { prefix, existing_kind }) => exists|i: int|
                        duplicate_at(rules, rule, i) && existing_kind == rules[i].kind && prefix@
                            == rule.prefix@,
                    Err(
                        CoreError::ContradictoryPrefixRule {
                            prefix,
                            kind,
                            existing_prefix,
                            existing_kind,
                        },
                    ) => no_duplicate(rules, rule) && exists|i: int|
                        contradiction_at(rules, rule, i) && existing_kind == rules[i].kind
                            && existing_prefix@ == rules[i].prefix@ && prefix@ == rule.prefix@
                            && kind == rule.kind,
                    Err(_) => false,
                }
            }),
            r is Ok ==> final(self).filter_state().data_filter.rules@ == old(
                self,
            ).filter_state().data_filter.rules@.push(rule),
            r is Err ==> final(self).filter_state().data_filter.rules@ == old(
                self,
            ).filter_state().data_filter.rules@,
            final(self).filter_state().kinds == old(self).filter_state().kinds,
            final(self).filter_state().channel_mode == old(self).filter_state().channel_mode,
            final(self).retained() == old(self).retained(),
            final(self).same_except(old(self), set![MonitorPart::Filter]),
    {
        self.filter.data_filter.add(rule)
    }

    /// Removes the prefix rule for a prefix, or reports that there is none.
    pub fn remove_prefix_rule(&mut self, prefix: &HexPrefix) -> (r: Result<(), CoreError>)
        ensures
            final(self).filter_state().data_filter.rules@ == old(
                self,
            ).filter_state().data_filter.rules@.filter(
                |rule: DataPrefixRule| rule.prefix@ != prefix@,
            ),
            r is Ok <==> exists|i: int|
                0 <= i < old(self).filter_state().data_filter.rules@.len() && #[trigger] old(
                    self,
                ).filter_state().data_filter.rules@[i].prefix@ == prefix@,
            r matches Err(e) ==> e matches CoreError::UnknownPrefixRule { prefix: p } && p@
                == prefix@,
            final(self).filter_state().kinds == old(self).filter_state().kinds,
            final(self).filter_state().channel_mode == old(self).filter_state().channel_mode,
            final(self).retained() == old(self).retained(),
            final(self).same_except(old(self), set![MonitorPart::Filter]),
    {
        self.filter.data_filter.remove(prefix)
    }

    /// Replaces the cap, discarding the excess oldest events at once.
    pub fn set_retention(&mut self, limit: RetentionLimit)
        ensures
            final(self).cap() == limit,
            final(self).retained() == keep_newest(old(self).retained(), limit@ as nat),
            final(self).same_except_log(old(self)),
    {
        self.log.set_limit(limit);
    }

    /// Discards every retained event.
    pub fn clear(&mut self)
        ensures
            final(self).retained() == Seq::<MidiEvent>::empty(),
            final(self).cap() == old(self).cap(),
            final(self).same_except_log(old(self)),
    {
        self.log.clear();
    }

    /// Shows exactly the given columns, or refuses to hide them all. Hiding a
    /// column never changes which events are retained or shown.
    pub fn set_columns(&mut self, visible: &[Column]) -> (r: Result<(), CoreError>)
        ensures
            match r {
                Ok(()) => forall|c: Column| final(self).column_state().hides(c) <==> !visible@.contains(c),
                Err(e) => visible@.len() == 0 && e == CoreError::LastColumnVisible
                    && final(self).column_state() == old(self).column_state(),
            },
            final(self).same_except(old(self), set![MonitorPart::Columns]),
            final(self).retained() == old(self).retained(),
            final(self).filter_state() == old(self).filter_state(),
            final(self).sources() == old(self).sources(),
    {
        self.columns = ColumnVisibility::from_visible(visible)?;
        Ok(())
    }
}

/// A copy of a list of keys.
fn copy_keys(keys: &[SourceKey]) -> (copy: Vec<SourceKey>)
    ensures
        key_views(copy@) == key_views(keys@),
{
    let mut copy: Vec<SourceKey> = Vec::new();
    let mut i: usize = 0;
    while i < keys.len()
        invariant
            i <= keys@.len(),
            key_views(copy@) == key_views(keys@.take(i as int)),
        decreases keys@.len() - i,
    {
        let ghost before = copy@;
        copy.push(keys[i].duplicate());
        proof {
            assert(key_views(copy@) =~= key_views(before).push(keys@[i as int]@));
            assert(keys@.take(i + 1) =~= keys@.take(i as int).push(keys@[i as int]));
            assert(key_views(keys@.take(i + 1)) =~= key_views(keys@.take(i as int)).push(
                keys@[i as int]@,
            ));
        }
        i = i + 1;
    }
    assert(keys@.take(i as int) =~= keys@);
    copy
}

/// Whether a list of keys holds one equal to `key`, stated over their values.
proof fn lemma_keys_contain_views(keys: Seq<SourceKey>, key: SourceKeyModel)
    ensures
        keys_contain(keys, key) <==> key_views(keys).contains(key),
{
    if keys_contain(keys, key) {
        let i = choose|i: int| 0 <= i < keys.len() && #[trigger] keys[i]@ == key;
        assert(key_views(keys)[i] == key);
    }
    if key_views(keys).contains(key) {
        let i = choose|i: int| 0 <= i < key_views(keys).len() && key_views(keys)[i] == key;
        assert(keys[i]@ == key);
    }
}

/// The keys of a list that a second list does not hold, in order.
fn without_present(list: Vec<SourceKey>, present: &[SourceKey]) -> (kept: Vec<SourceKey>)
    ensures
        key_views(kept@) == key_views(list@).filter(
            |k: SourceKeyModel| !key_views(present@).contains(k),
        ),
{
    let mut kept: Vec<SourceKey> = Vec::new();
    let mut i: usize = 0;
    while i < list.len()
        invariant
            i <= list@.len(),
            key_views(kept@) == key_views(list@.take(i as int)).filter(
                |k: SourceKeyModel| !key_views(present@).contains(k),
            ),
        decreases list@.len() - i,
    {
        let ghost before = kept@;
        proof {
            assert(list@.take(i + 1) =~= list@.take(i as int).push(list@[i as int]));
            assert(key_views(list@.take(i + 1)) =~= key_views(list@.take(i as int)).push(
                list@[i as int]@,
            ));
            assert(key_views(list@.take(i + 1)).drop_last() =~= key_views(list@.take(i as int)));
            reveal_with_fuel(Seq::filter, 1);
            lemma_keys_contain_views(present@, list@[i as int]@);
        }
        if !contains_key(present, &list[i]) {
            kept.push(list[i].duplicate());
            proof {
                assert(key_views(kept@) =~= key_views(before).push(list@[i as int]@));
            }
        }
        i = i + 1;
    }
    assert(list@.take(i as int) =~= list@);
    kept
}

/// Appends each key of `more` that the list does not already hold, in order.
fn append_new_keys(list: &mut Vec<SourceKey>, more: &[SourceKey])
    ensures
        key_views(final(list)@) == appended_new(key_views(old(list)@), key_views(more@)),
{
    let ghost start = key_views(list@);
    let mut i: usize = 0;
    assert(key_views(more@.take(0)) =~= Seq::<SourceKeyModel>::empty());
    while i < more.len()
        invariant
            i <= more@.len(),
            start == key_views(old(list)@),
            key_views(list@) == appended_new(start, key_views(more@.take(i as int))),
        decreases more@.len() - i,
    {
        let ghost before = list@;
        proof {
            assert(more@.take(i + 1) =~= more@.take(i as int).push(more@[i as int]));
            assert(key_views(more@.take(i + 1)) =~= key_views(more@.take(i as int)).push(
                more@[i as int]@,
            ));
            assert(key_views(more@.take(i + 1)).drop_last() =~= key_views(more@.take(i as int)));
            lemma_keys_contain_views(list@, more@[i as int]@);
        }
        if !contains_key(list.as_slice(), &more[i]) {
            list.push(more[i].duplicate());
            proof {
                assert(key_views(list@) =~= key_views(before).push(more@[i as int]@));
            }
        }
        i = i + 1;
    }
    assert(more@.take(i as int) =~= more@);
}

proof fn lemma_filter_keeps_everything<A>(v: Seq<A>, p: spec_fn(A) -> bool)
    requires
        forall|k: int| 0 <= k < v.len() ==> p(#[trigger] v[k]),
    ensures
        v.filter(p) == v,
    decreases v.len(),
{
    reveal_with_fuel(Seq::filter, 1);
    if v.len() > 0 {
        let front = v.drop_last();
        assert forall|k: int| 0 <= k < front.len() implies p(#[trigger] front[k]) by {
            assert(front[k] == v[k]);
        }
        lemma_filter_keeps_everything(front, p);
        assert(p(v[v.len() - 1]));
        assert(front.push(v.last()) =~= v);
    }
}

/// A catalogue after swapping in a new source list: each incoming source
/// keeps the selection a previous source with its key had.
pub open spec fn replaced_sources(previous: Seq<Source>, incoming: Seq<Source>) -> Seq<Source> {
    Seq::new(
        incoming.len(),
        |i: int|
            Source {
                selected: if has_key(previous, incoming[i].key@) {
                    selection_for(previous, incoming[i].key@)
                } else {
                    incoming[i].selected
                },
                ..incoming[i]
            },
    )
}

proof fn lemma_first_with_id_unique(s: Seq<Source>, id: SourceId, a: int, b: int)
    requires
        first_with_id(s, id, a),
        first_with_id(s, id, b),
    ensures
        a == b,
{
    if a < b {
        assert(s[a].id == id);
    } else if b < a {
        assert(s[b].id == id);
    }
}

/// The ids of a catalogue's sources, in order.
fn source_ids(catalogue: &SourceCatalogue) -> (ids: Vec<SourceId>)
    ensures
        ids@ == ids_of(catalogue@),
{
    let sources = catalogue.sources();
    let mut ids: Vec<SourceId> = Vec::new();
    let mut i: usize = 0;
    while i < sources.len()
        invariant
            i <= sources@.len(),
            sources@ == catalogue@,
            ids@ == ids_of(sources@.take(i as int)),
        decreases sources@.len() - i,
    {
        ids.push(sources[i].id);
        i = i + 1;
        assert(ids@ =~= ids_of(sources@.take(i as int)));
    }
    assert(sources@.take(i as int) =~= sources@);
    ids
}

impl Monitor {
    /// Swaps in a newly discovered source list. Selections carry across by
    /// key, and every source whose key is remembered is selected again, so a
    /// device that returns comes back ticked.
    pub fn replace_catalogue(&mut self, sources: Vec<Source>)
        ensures
            final(self).sources() == with_remembered(
                replaced_sources(old(self).sources(), sources@),
                old(self).remembered_keys(),
            ),
            final(self).remembered_keys() == old(self).remembered_keys(),
            final(self).same_except_selection(old(self)),
    {
        let ghost previous = self.sources();
        let ghost incoming = sources@;
        self.catalogue.replace(sources);
        let ghost base = self.sources();
        assert(base =~= replaced_sources(previous, incoming));
        let present = self.catalogue.present_keys();
        let ids = source_ids(&self.catalogue);
        let remembered = copy_keys(self.remembered.as_slice());
        let ghost rem = self.remembered_keys();
        let count = ids.len();
        assert(key_views(present@).len() == present@.len());
        assert(keys_of(base).len() == base.len());
        let mut i: usize = 0;
        while i < count
            invariant
                i <= count,
                count == base.len(),
                present@.len() == count,
                ids@ == ids_of(base),
                key_views(present@) == keys_of(base),
                key_views(remembered@) == rem,
                rem == old(self).remembered_keys(),
                base == replaced_sources(previous, incoming),
                previous == old(self).sources(),
                incoming == sources@,
                self.remembered_keys() == rem,
                self.same_except_selection(old(self)),
                self.sources().len() == base.len(),
                forall|j: int|
                    0 <= j < base.len() ==> #[trigger] self.sources()[j] == (Source {
                        selected: base[j].selected || reselected(base, rem, j, i as int),
                        ..base[j]
                    }),
            decreases count - i,
        {
            let ghost cur = self.sources();
            proof {
                assert(present@[i as int]@ == key_views(present@)[i as int]);
                assert(keys_of(base)[i as int] == base[i as int].key@);
                lemma_keys_contain_views(remembered@, base[i as int].key@);
                assert(ids@[i as int] == base[i as int].id);
                assert forall|j: int| 0 <= j < base.len() implies #[trigger] cur[j].id == base[j].id by {}
            }
            if contains_key(remembered.as_slice(), &present[i]) {
                let id = ids[i];
                match self.catalogue.set_selected(id, true) {
                    Ok(()) => {
                        proof {
                            let i0 = choose|i0: int|
                                first_with_id(cur, id, i0) && self.sources() == cur.update(
                                    i0,
                                    Source { selected: true, ..cur[i0] },
                                );
                            assert forall|j: int| 0 <= j < i0 implies #[trigger] base[j].id != id by {
                                assert(cur[j].id != id);
                                assert(cur[j].id == base[j].id);
                            }
                            assert(cur[i0].id == base[i0].id);
                            assert(first_with_id(base, id, i0));
                            assert forall|j: int| 0 <= j < base.len() implies #[trigger] self.sources()[j]
                                == (Source {
                                selected: base[j].selected || reselected(base, rem, j, i + 1),
                                ..base[j]
                            }) by {
                                if j == i0 {
                                    assert(base[i as int].id == base[j].id);
                                    assert(rem.contains(base[i as int].key@));
                                } else if reselected(base, rem, j, i + 1) && !reselected(
                                    base,
                                    rem,
                                    j,
                                    i as int,
                                ) {
                                    let w = choose|w: int|
                                        0 <= w < i + 1 && base[w].id == base[j].id && rem.contains(
                                            #[trigger] base[w].key@,
                                        );
                                    assert(w == i);
                                    lemma_first_with_id_unique(base, id, i0, j);
                                } else if reselected(base, rem, j, i as int) {
                                    let w = choose|w: int|
                                        0 <= w < i && base[w].id == base[j].id && rem.contains(
                                            #[trigger] base[w].key@,
                                        );
                                    assert(0 <= w < i + 1);
                                }
                            }
                        }
                    },
                    Err(_) => {
                        proof {
                            assert(cur[i as int].id == id);
                        }
                    },
                }
            } else {
                proof {
                    assert forall|j: int| 0 <= j < base.len() implies reselected(base, rem, j, i + 1)
                        == reselected(base, rem, j, i as int) by {
                        if reselected(base, rem, j, i + 1) {
                            let w = choose|w: int|
                                0 <= w < i + 1 && base[w].id == base[j].id && rem.contains(
                                    #[trigger] base[w].key@,
                                );
                            assert(w != i);
                        }
                        if reselected(base, rem, j, i as int) {
                            let w = choose|w: int|
                                0 <= w < i && base[w].id == base[j].id && rem.contains(
                                    #[trigger] base[w].key@,
                                );
                            assert(0 <= w < i + 1);
                        }
                    }
                }
            }
            i = i + 1;
        }
        proof {
            assert(self.sources() =~= with_remembered(base, rem));
        }
    }

    /// The source catalogue, for changes the monitor need not know about, such
    /// as marking a port unopenable.
    pub fn catalogue_mut(&mut self) -> (c: &mut SourceCatalogue)
        ensures
            (*c)@ == old(self).sources(),
            final(self).sources() == (*final(c))@,
            final(self).remembered_keys() == old(self).remembered_keys(),
            final(self).same_except_selection(old(self)),
    {
        &mut self.catalogue
    }

    /// Selects or deselects one source, remembers the new selection, and drops
    /// what deselected sources had contributed.
    pub fn set_source_selected(&mut self, id: SourceId, selected: bool) -> (r: Result<
        (),
        CoreError,
    >)
        ensures
            match r {
                Ok(()) => {
                    &&& exists|i: int|
                        first_with_id(old(self).sources(), id, i) && final(self).sources() == old(
                            self,
                        ).sources().update(i, Source { selected, ..old(self).sources()[i] })
                    &&& final(self).remembered_keys() == remembered_after(
                        old(self).remembered_keys(),
                        final(self).sources(),
                    )
                    &&& final(self).retained() == old(self).retained().filter(
                        |e: MidiEvent| from_none_of(deselected_ids_of(final(self).sources()), e),
                    )
                },
                Err(e) => {
                    &&& no_source_with_id(old(self).sources(), id)
                    &&& e == CoreError::UnknownSource { id }
                    &&& final(self).sources() == old(self).sources()
                    &&& final(self).remembered_keys() == old(self).remembered_keys()
                    &&& final(self).retained() == old(self).retained()
                    &&& final(self).same_except(old(self), Set::<MonitorPart>::empty())
                },
            },
            final(self).cap() == old(self).cap(),
            final(self).filter_state() == old(self).filter_state(),
            final(self).capture_spec() == old(self).capture_spec(),
            final(self).same_except(old(self), set![MonitorPart::Selection, MonitorPart::Log]),
            r is Ok && keys_unique(final(self).sources()) ==> selection_agrees(
                final(self).sources(),
                final(self).remembered_keys(),
            ),
    {
        let ghost before = self.sources();
        match self.catalogue.set_selected(id, selected) {
            Ok(()) => {},
            Err(e) => {
                return Err(e);
            },
        }
        let ghost chosen = self.sources();
        let ghost rem = self.remembered_keys();
        self.remember_current();
        assert(self.sources() == chosen);
        assert(self.remembered_keys() == remembered_after(rem, chosen));
        self.purge_deselected();
        assert(self.sources() == chosen);
        proof {
            if keys_unique(chosen) {
                lemma_selection_change_agrees(rem, chosen);
            }
        }
        Ok(())
    }

    /// Applies one selection state to every member of a group, remembers the
    /// new selection, and drops what deselected sources had contributed.
    pub fn set_group_selected(&mut self, group: SourceGroupId, selected: bool)
        ensures
            final(self).sources().len() == old(self).sources().len(),
            forall|i: int|
                0 <= i < old(self).sources().len() ==> #[trigger] final(self).sources()[i] == if old(
                    self,
                ).sources()[i].group == Some(group) {
                    Source { selected, ..old(self).sources()[i] }
                } else {
                    old(self).sources()[i]
                },
            final(self).remembered_keys() == remembered_after(
                old(self).remembered_keys(),
                final(self).sources(),
            ),
            final(self).retained() == old(self).retained().filter(
                |e: MidiEvent| from_none_of(deselected_ids_of(final(self).sources()), e),
            ),
            final(self).cap() == old(self).cap(),
            final(self).filter_state() == old(self).filter_state(),
            final(self).capture_spec() == old(self).capture_spec(),
            final(self).same_except(old(self), set![MonitorPart::Selection, MonitorPart::Log]),
            keys_unique(final(self).sources()) ==> selection_agrees(
                final(self).sources(),
                final(self).remembered_keys(),
            ),
    {
        self.catalogue.set_group_selected(group, selected);
        let ghost rem = self.remembered_keys();
        self.remember_current();
        self.purge_deselected();
        proof {
            if keys_unique(self.sources()) {
                lemma_selection_change_agrees(rem, self.sources());
            }
        }
    }

    /// Updates the remembered selection from the catalogue: keys of sources not
    /// present are kept, and the present ones are replaced by those selected.
    fn remember_current(&mut self)
        ensures
            final(self).remembered_keys() == remembered_after(
                old(self).remembered_keys(),
                old(self).sources(),
            ),
            final(self).sources() == old(self).sources(),
            final(self).same_except_selection(old(self)),
    {
        let present = self.catalogue.present_keys();
        let selected = self.catalogue.selected_keys();
        let mut remembered: Vec<SourceKey> = Vec::new();
        std::mem::swap(&mut remembered, &mut self.remembered);
        let mut kept = without_present(remembered, present.as_slice());
        append_new_keys(&mut kept, selected.as_slice());
        self.remembered = kept;
    }

    /// Drops retained events from sources that are not selected.
    fn purge_deselected(&mut self)
        ensures
            final(self).retained() == old(self).retained().filter(
                |e: MidiEvent| from_none_of(deselected_ids_of(old(self).sources()), e),
            ),
            final(self).cap() == old(self).cap(),
            final(self).same_except_log(old(self)),
    {
        let deselected = self.catalogue.deselected_ids();
        if deselected.len() == 0 {
            proof {
                let p = |e: MidiEvent| from_none_of(deselected_ids_of(self.sources()), e);
                assert forall|k: int| 0 <= k < self.retained().len() implies p(
                    #[trigger] self.retained()[k],
                ) by {}
                lemma_filter_keeps_everything(self.retained(), p);
            }
            return;
        }
        self.log.retain_selected(deselected.as_slice());
    }

    /// The settings to save: the remembered selection with any newly selected
    /// key appended, so a source unplugged now stays selected for when it
    /// returns, and the monitor's own settings. The send screen's half is left
    /// at its defaults for its owner to fill in.
    pub fn persisted_settings(&self) -> (s: PersistedSettings)
        ensures
            key_views(s.selected_sources@) == appended_new(
                self.remembered_keys(),
                selected_keys_of(self.sources()),
            ),
            same_filter(s.filter, self.filter_state()),
            forall|c: Column| s.columns.hides(c) == self.column_state().hides(c),
            s.retention == self.cap(),
            s.display == self.display_spec(),
            s.appearance == self.appearance_spec(),
            s.send.target is None,
            s.send.saved_requests@.len() == 0,
            !s.send.publication.published,
            s.send.publication.name@ == "MIDI Monitor"@,
    {
        let mut selected_sources = copy_keys(self.remembered.as_slice());
        let current = self.catalogue.selected_keys();
        append_new_keys(&mut selected_sources, current.as_slice());
        PersistedSettings {
            selected_sources,
            filter: self.filter.duplicate(),
            columns: self.columns.duplicate(),
            retention: self.log.limit(),
            display: self.display,
            appearance: self.appearance,
            send: SendSettings::default(),
        }
    }
}

/// After a selection change the monitor keeps no event from a source that is
/// listed and not selected.
pub proof fn lemma_nothing_kept_from_deselected(
    sources: Seq<Source>,
    events: Seq<MidiEvent>,
    i: int,
    k: int,
)
    requires
        0 <= i < sources.len(),
        !sources[i].selected,
        0 <= k < events.filter(|e: MidiEvent| from_none_of(deselected_ids_of(sources), e)).len(),
    ensures
        events.filter(|e: MidiEvent| from_none_of(deselected_ids_of(sources), e))[k].source
            != sources[i].id,
{
    let p = |e: MidiEvent| from_none_of(deselected_ids_of(sources), e);
    events.filter_lemma(p);
    let unselected = sources.filter(|s: Source| !s.selected);
    sources.filter_lemma(|s: Source| !s.selected);
    assert(unselected.contains(sources[i]));
    let w = choose|w: int| 0 <= w < unselected.len() && unselected[w] == sources[i];
    assert(deselected_ids_of(sources)[w] == sources[i].id);
    assert(p(events.filter(p)[k]));
}

/// Whether the sources' selection agrees with what is remembered: no
/// unselected source carries a remembered key, or the key of a selected one.
pub open spec fn selection_agrees(sources: Seq<Source>, remembered: Seq<SourceKeyModel>) -> bool {
    forall|i: int|
        0 <= i < sources.len() && !(#[trigger] sources[i]).selected ==> {
            &&& !remembered.contains(sources[i].key@)
            &&& forall|j: int|
                0 <= j < sources.len() && (#[trigger] sources[j]).selected ==> sources[j].key@
                    != sources[i].key@
        }
}

/// A key is in a list with keys appended exactly when it was in the list or
/// among those appended.
proof fn lemma_appended_new_contains(acc: Seq<SourceKeyModel>, more: Seq<SourceKeyModel>, k: SourceKeyModel)
    ensures
        appended_new(acc, more).contains(k) <==> (acc.contains(k) || more.contains(k)),
    decreases more.len(),
{
    if more.len() > 0 {
        lemma_appended_new_contains(acc, more.drop_last(), k);
        let earlier = appended_new(acc, more.drop_last());
        if more.drop_last().contains(k) {
            let i = choose|i: int| 0 <= i < more.drop_last().len() && more.drop_last()[i] == k;
            assert(more[i] == k);
        }
        if more.contains(k) {
            let i = choose|i: int| 0 <= i < more.len() && more[i] == k;
            if i < more.len() - 1 {
                assert(more.drop_last()[i] == k);
            }
        }
        if earlier.push(more.last()).contains(k) && !earlier.contains(k) {
            let i = choose|i: int| 0 <= i < earlier.push(more.last()).len() && earlier.push(more.last())[i] == k;
            assert(i == earlier.len());
            assert(more[more.len() - 1] == k);
        }
        if earlier.contains(k) {
            let i = choose|i: int| 0 <= i < earlier.len() && earlier[i] == k;
            assert(earlier.push(more.last())[i] == k);
        }
        if more.last() == k {
            assert(earlier.push(more.last())[earlier.len() as int] == k);
        }
    }
}

/// Saved settings restore the selection they were taken from: a monitor built
/// over the same sources with the settings the monitor saves selects exactly
/// the sources it selected, as long as its selection agrees with what it
/// remembers. Sources that share a key are selected or not together, so a
/// selection that tells two of them apart is not restored.
pub proof fn lemma_saved_selection_restores(
    sources: Seq<Source>,
    remembered: Seq<SourceKeyModel>,
    saved: Seq<SourceKey>,
)
    requires
        selection_agrees(sources, remembered),
        key_views(saved) == appended_new(remembered, selected_keys_of(sources)),
    ensures
        with_selection(sources, saved) == sources,
{
    let chosen = sources.filter(|s: Source| s.selected);
    sources.filter_lemma(|s: Source| s.selected);
    assert forall|i: int| 0 <= i < sources.len() implies #[trigger] with_selection(sources, saved)[i]
        == sources[i] by {
        let k = sources[i].key@;
        lemma_keys_contain_views(saved, k);
        lemma_appended_new_contains(remembered, selected_keys_of(sources), k);
        if sources[i].selected {
            assert(chosen.contains(sources[i]));
            let j = choose|j: int| 0 <= j < chosen.len() && chosen[j] == sources[i];
            assert(selected_keys_of(sources)[j] == k);
        } else {
            if selected_keys_of(sources).contains(k) {
                let j = choose|j: int|
                    0 <= j < selected_keys_of(sources).len() && selected_keys_of(sources)[j] == k;
                assert(chosen[j].selected);
                assert(chosen.contains(chosen[j]));
                sources.lemma_filter_contains_rev(|s: Source| s.selected, chosen[j]);
                let n = choose|n: int| 0 <= n < sources.len() && sources[n] == chosen[j];
                assert(sources[n].selected && sources[n].key@ == k);
            }
        }
    }
    assert(with_selection(sources, saved) =~= sources);
}

/// A monitor just built from saved settings agrees with what it remembers: it
/// selects exactly the sources whose key was saved, and remembers those keys.
/// With [`lemma_saved_selection_restores`], saving such a monitor's settings
/// and building again over the same sources selects the same sources.
pub proof fn lemma_built_selection_agrees(sources: Seq<Source>, saved: Seq<SourceKey>)
    ensures
        selection_agrees(with_selection(sources, saved), key_views(saved)),
{
    let built = with_selection(sources, saved);
    assert forall|i: int| 0 <= i < built.len() && !(#[trigger] built[i]).selected implies {
        &&& !key_views(saved).contains(built[i].key@)
        &&& forall|j: int|
            0 <= j < built.len() && (#[trigger] built[j]).selected ==> built[j].key@ != built[i].key@
    } by {
        lemma_keys_contain_views(saved, built[i].key@);
    }
}

/// Whether no two sources share a key.
pub open spec fn keys_unique(sources: Seq<Source>) -> bool {
    forall|a: int, b: int|
        0 <= a < sources.len() && 0 <= b < sources.len() && a != b ==> (#[trigger] sources[a]).key@
            != (#[trigger] sources[b]).key@
}

/// After a selection change over sources with distinct keys, the selection
/// agrees with what is remembered, so the settings saved then restore it.
pub proof fn lemma_selection_change_agrees(remembered: Seq<SourceKeyModel>, sources: Seq<Source>)
    requires
        keys_unique(sources),
    ensures
        selection_agrees(sources, remembered_after(remembered, sources)),
{
    let kept = remembered.filter(|k: SourceKeyModel| !keys_of(sources).contains(k));
    let chosen = sources.filter(|s: Source| s.selected);
    sources.filter_lemma(|s: Source| s.selected);
    assert forall|i: int| 0 <= i < sources.len() && !(#[trigger] sources[i]).selected implies {
        &&& !remembered_after(remembered, sources).contains(sources[i].key@)
        &&& forall|j: int|
            0 <= j < sources.len() && (#[trigger] sources[j]).selected ==> sources[j].key@
                != sources[i].key@
    } by {
        let k = sources[i].key@;
        lemma_appended_new_contains(kept, selected_keys_of(sources), k);
        assert(keys_of(sources)[i] == k);
        if kept.contains(k) {
            remembered.lemma_filter_contains_rev(|k: SourceKeyModel| !keys_of(sources).contains(k), k);
            let w = choose|w: int| 0 <= w < kept.len() && kept[w] == k;
            remembered.filter_lemma(|k: SourceKeyModel| !keys_of(sources).contains(k));
            assert(!keys_of(sources).contains(kept[w]));
        }
        if selected_keys_of(sources).contains(k) {
            let j = choose|j: int|
                0 <= j < selected_keys_of(sources).len() && selected_keys_of(sources)[j] == k;
            assert(chosen[j].selected);
            assert(chosen.contains(chosen[j]));
            sources.lemma_filter_contains_rev(|s: Source| s.selected, chosen[j]);
            let n = choose|n: int| 0 <= n < sources.len() && sources[n] == chosen[j];
            assert(sources[n].key@ == k);
        }
    }
}

/// A monitor's saved settings restore its selection: building over the same
/// sources with what [`Monitor::persisted_settings`] returns selects exactly
/// the sources the monitor selects, whenever its selection agrees with what it
/// remembers. It does once built ([`Monitor::new`]) and after every selection
/// change over sources with distinct keys ([`lemma_selection_change_agrees`]).
pub proof fn lemma_persisted_selection_restores(m: Monitor, saved: PersistedSettings)
    requires
        selection_agrees(m.sources(), m.remembered_keys()),
        key_views(saved.selected_sources@) == appended_new(
            m.remembered_keys(),
            selected_keys_of(m.sources()),
        ),
    ensures
        with_selection(m.sources(), saved.selected_sources@) == m.sources(),
{
    lemma_saved_selection_restores(m.sources(), m.remembered_keys(), saved.selected_sources@);
}

} // verus!
