use midi_core::capture::CaptureState;
use midi_core::column::{Column, ColumnVisibility};
use midi_core::error::CoreError;
use midi_core::event::MidiEvent;
use midi_core::event_log::EventLog;
use midi_core::filter::{ChannelMode, DataPrefixRule, FilterSettings, PrefixMode};
use midi_core::ids::{
    Arrival, ChannelNumber, DataByte, EventId, HexPrefix, HostTicks, HostTime, RetentionLimit,
    SourceGroupId, SourceId, SourceKey, TickRate, Timestamp,
};
use midi_core::message::{MessageKind, MidiMessage};
use midi_core::monitor::Monitor;
use midi_core::ports::{ByteFidelity, MidiSystemStatus, PlatformCapabilities, PublicationSupport};
use midi_core::source::{Availability, CheckState, Source};

fn source(id: u32, selected: bool) -> Source {
    Source {
        id: SourceId::new(id),
        key: SourceKey::Endpoint(id as i32),
        name: format!("Port {id}"),
        group: Some(SourceGroupId::MidiSources),
        selected,
        availability: Availability::Open,
    }
}

fn arrival() -> Arrival {
    Arrival::new(Timestamp::from_millis_since_midnight(1_000), HostTime::Stamped(HostTicks::new(5)))
}

fn event(id: u32, source: u32, channel: u8) -> MidiEvent {
    let mut event_id = EventId::first();
    for _ in 0..id {
        event_id = event_id.next();
    }
    MidiEvent::new(
        event_id,
        arrival(),
        SourceId::new(source),
        MidiMessage::NoteOn {
            channel: ChannelNumber::new(channel).unwrap(),
            note: DataByte::from_masked(60),
            velocity: DataByte::from_masked(1),
        },
        vec![0x90 + channel - 1, 60, 1],
    )
}

fn capabilities() -> PlatformCapabilities {
    PlatformCapabilities {
        publication: PublicationSupport::Supported,
        byte_fidelity: ByteFidelity::AsTransmitted,
    }
}

fn monitor() -> Monitor {
    Monitor::new(
        vec![source(1, false), source(2, false)],
        None,
        MidiSystemStatus::Available,
        capabilities(),
        TickRate::nanosecond(),
    )
}

#[test]
fn first_launch_selects_every_present_source() {
    let monitor = monitor();
    assert!(monitor.catalogue().sources().iter().all(|s| s.selected));
    assert!(monitor.is_monitoring());
    assert_eq!(monitor.retention().get(), 1000);
    assert_eq!(monitor.capture_state(), CaptureState::Running);
}

#[test]
fn ingest_retains_and_streams_admitted_events() {
    let mut monitor = monitor();
    let streamed = monitor.ingest(event(0, 1, 1));
    assert_eq!(streamed, Some(event(0, 1, 1)));
    assert_eq!(monitor.retained_count(), 1);
}

#[test]
fn paused_monitor_retains_nothing() {
    let mut monitor = monitor();
    monitor.set_capture_state(CaptureState::Paused);
    assert_eq!(monitor.ingest(event(0, 1, 1)), None);
    assert_eq!(monitor.retained_count(), 0);
}

#[test]
fn events_from_unselected_sources_are_not_retained() {
    let mut monitor = monitor();
    monitor.set_source_selected(SourceId::new(2), false).unwrap();
    assert_eq!(monitor.ingest(event(0, 2, 1)), None);
    assert_eq!(monitor.ingest(event(1, 9, 1)), None);
    assert_eq!(monitor.retained_count(), 0);
}

#[test]
fn filter_decides_what_is_shown_not_what_is_kept() {
    let mut monitor = monitor();
    let mut narrow = FilterSettings::default();
    narrow.channel_mode = ChannelMode::OneChannel(ChannelNumber::new(2).unwrap());
    monitor.set_filter(narrow);
    assert_eq!(monitor.ingest(event(0, 1, 1)), None);
    assert_eq!(monitor.retained_count(), 1);
    assert_eq!(monitor.visible_events().len(), 0);
    monitor.set_filter(FilterSettings::default());
    assert_eq!(monitor.visible_events().len(), 1);
}

#[test]
fn deselecting_a_source_drops_what_it_contributed() {
    let mut monitor = monitor();
    monitor.ingest(event(0, 1, 1));
    monitor.ingest(event(1, 2, 1));
    monitor.set_source_selected(SourceId::new(1), false).unwrap();
    let visible = monitor.visible_events();
    assert_eq!(visible.len(), 1);
    assert_eq!(visible[0].source, SourceId::new(2));
    assert_eq!(monitor.group_state(SourceGroupId::MidiSources), CheckState::Mixed);
}

#[test]
fn selecting_an_unknown_source_is_refused() {
    let mut monitor = monitor();
    assert_eq!(
        monitor.set_source_selected(SourceId::new(7), true),
        Err(CoreError::UnknownSource { id: SourceId::new(7) })
    );
}

#[test]
fn remembered_selection_survives_an_unplug() {
    let mut monitor = monitor();
    monitor.set_source_selected(SourceId::new(2), false).unwrap();
    monitor.replace_catalogue(vec![source(2, false)]);
    monitor.replace_catalogue(vec![source(1, false), source(2, false)]);
    let sources = monitor.catalogue().sources();
    assert!(sources[0].selected);
    assert!(!sources[1].selected);
    let saved = monitor.persisted_settings();
    assert_eq!(saved.selected_sources, vec![SourceKey::Endpoint(1)]);
}

#[test]
fn saved_settings_restore_the_selection() {
    let mut saved = monitor().persisted_settings();
    saved.selected_sources = vec![SourceKey::Endpoint(2), SourceKey::Endpoint(5)];
    let monitor = Monitor::new(
        vec![source(1, true), source(2, false)],
        Some(saved),
        MidiSystemStatus::Available,
        capabilities(),
        TickRate::nanosecond(),
    );
    let sources = monitor.catalogue().sources();
    assert!(!sources[0].selected);
    assert!(sources[1].selected);
    assert_eq!(
        monitor.persisted_settings().selected_sources,
        vec![SourceKey::Endpoint(2), SourceKey::Endpoint(5)]
    );
}

#[test]
fn retention_cap_evicts_oldest_first() {
    let mut log = EventLog::new(RetentionLimit::new(2).unwrap());
    log.push(event(0, 1, 1));
    log.push(event(1, 1, 1));
    log.push(event(2, 1, 1));
    assert_eq!(log.len(), 2);
    let kept = log.view(&FilterSettings::default());
    assert_eq!(kept[0].id.get(), 1);
    assert_eq!(kept[1].id.get(), 2);
    log.set_limit(RetentionLimit::new(1).unwrap());
    assert_eq!(log.len(), 1);
    assert_eq!(log.view(&FilterSettings::default())[0].id.get(), 2);
    log.clear();
    assert!(log.is_empty());
}

#[test]
fn retention_outside_the_supported_range_is_refused() {
    assert_eq!(RetentionLimit::new(0), Err(CoreError::RetentionOutOfRange { value: 0 }));
    assert_eq!(
        RetentionLimit::new(100_001),
        Err(CoreError::RetentionOutOfRange { value: 100_001 })
    );
    assert_eq!(EventLog::default().limit().get(), 1000);
}

#[test]
fn prefix_rules_refuse_clashes() {
    let mut monitor = monitor();
    let rule = |p: &str, kind| DataPrefixRule::new(HexPrefix::parse(p).unwrap(), kind);
    monitor.add_prefix_rule(rule("90", PrefixMode::Include)).unwrap();
    assert!(matches!(
        monitor.add_prefix_rule(rule("90", PrefixMode::Exclude)),
        Err(CoreError::DuplicatePrefixRule { .. })
    ));
    assert!(matches!(
        monitor.add_prefix_rule(rule("903C", PrefixMode::Exclude)),
        Err(CoreError::ContradictoryPrefixRule { .. })
    ));
    monitor.add_prefix_rule(rule("903C", PrefixMode::Include)).unwrap();
    assert_eq!(monitor.filter().data_filter.rules.len(), 2);
    monitor.remove_prefix_rule(&HexPrefix::parse("90").unwrap()).unwrap();
    assert_eq!(
        monitor.remove_prefix_rule(&HexPrefix::parse("90").unwrap()),
        Err(CoreError::UnknownPrefixRule { prefix: "90".to_owned() })
    );
}

#[test]
fn excluded_prefix_hides_matching_events() {
    let mut monitor = monitor();
    monitor.ingest(event(0, 1, 1));
    monitor.ingest(event(1, 1, 2));
    monitor
        .add_prefix_rule(DataPrefixRule::new(HexPrefix::parse("91").unwrap(), PrefixMode::Exclude))
        .unwrap();
    let visible = monitor.visible_events();
    assert_eq!(visible.len(), 1);
    assert_eq!(visible[0].raw, vec![0x90, 60, 1]);
}

#[test]
fn message_kind_filter_hides_unticked_kinds() {
    let mut filter = FilterSettings::default();
    filter.kinds.retain(|k| *k != MessageKind::NoteOnOff);
    assert!(!filter.admits(&event(0, 1, 1)));
}

#[test]
fn columns_cannot_all_be_hidden() {
    let mut monitor = monitor();
    assert_eq!(monitor.set_columns(&[]), Err(CoreError::LastColumnVisible));
    monitor.set_columns(&[Column::Data, Column::Time]).unwrap();
    assert_eq!(monitor.columns().visible(), vec![Column::Time, Column::Data]);
    assert!(!monitor.columns().is_visible(Column::Chan));
    assert_eq!(ColumnVisibility::default().visible().len(), 5);
}

#[test]
fn hex_prefix_is_normalised() {
    assert_eq!(HexPrefix::parse(" 9 0 3c ").unwrap().as_str(), "903C");
    assert_eq!(HexPrefix::parse("   "), Err(CoreError::EmptyHexPrefix));
    assert_eq!(
        HexPrefix::parse("9x"),
        Err(CoreError::MalformedHexPrefix { entry: "9x".to_owned() })
    );
}

#[test]
fn clear_discards_everything_retained() {
    let mut monitor = monitor();
    monitor.ingest(event(0, 1, 1));
    monitor.clear();
    assert_eq!(monitor.retained_count(), 0);
    monitor.set_retention(RetentionLimit::new(5).unwrap());
    assert_eq!(monitor.retention().get(), 5);
}
