use midi_core::adapter::PortSnapshot;
use midi_core::composition::{Composition, PersistedComposition};
use midi_core::decoder::{Decoded, MessageDecoder};
use midi_core::display::DisplaySettings;
use midi_core::dto::composition;
use midi_core::error::CoreError;
use midi_core::ids::{Arrival, HostTicks, HostTime, SendRecordId, SourceGroupId, SourceId, SourceKey, TargetId, TargetKey, TickRate, Timestamp};
use midi_core::message::{InvalidReason, MidiMessage};
use midi_core::monitor::Monitor;
use midi_core::port_catalogue::{ambiguous_names, mint_key};
use midi_core::ports::{ByteFidelity, MidiSystemStatus, PlatformCapabilities, PublicationSupport};
use midi_core::rendering::data_display;
use midi_core::send_record::SendOutcome;
use midi_core::sendable::{FieldId, SendableKind};
use midi_core::sender::Sender;
use midi_core::session_ids::MintKey;
use midi_core::source::{Availability, Source};
use midi_core::target::{Target, TargetKind};
use midi_core::worker::Worker;

fn capabilities() -> PlatformCapabilities {
    PlatformCapabilities {
        publication: PublicationSupport::Supported,
        byte_fidelity: ByteFidelity::AsTransmitted,
    }
}

fn at() -> Arrival {
    Arrival::new(Timestamp::from_millis_since_midnight(0), HostTime::Stamped(HostTicks::new(0)))
}

#[test]
fn an_incomplete_message_cut_short_by_a_status_is_shown() {
    let mut decoder = MessageDecoder::new();
    let out = decoder.feed(&[0x90, 0x3C, 0x80, 0x3C, 0x40]);
    assert_eq!(out.len(), 2);
    assert_eq!(out[0], Decoded::Invalid { reason: InvalidReason::TruncatedData, raw: vec![0x90, 0x3C] });
    assert!(matches!(
        &out[1],
        Decoded::Message { message: MidiMessage::NoteOff { .. }, raw } if *raw == vec![0x80, 0x3C, 0x40]
    ));
}

#[test]
fn an_incomplete_running_status_message_shows_only_the_bytes_that_arrived() {
    let mut decoder = MessageDecoder::new();
    let out = decoder.feed(&[0x90, 0x3C, 0x40, 0x3E, 0xC0, 0x05]);
    assert_eq!(out.len(), 3);
    assert_eq!(out[1], Decoded::Invalid { reason: InvalidReason::TruncatedData, raw: vec![0x3E] });
}

#[test]
fn a_half_received_message_is_reported_when_given_up_on() {
    let mut decoder = MessageDecoder::new();
    assert!(decoder.feed(&[0xB0, 0x07]).is_empty());
    assert_eq!(
        decoder.abandon(),
        Some(Decoded::Invalid { reason: InvalidReason::TruncatedData, raw: vec![0xB0, 0x07] })
    );
    assert_eq!(decoder.abandon(), None);
}

#[test]
fn hand_typed_bytes_holding_a_half_message_are_refused() {
    assert!(matches!(
        Composition::from_raw_bytes(&[0x90, 0x3C, 0xF8]),
        Err(CoreError::MalformedSendBytes { .. })
    ));
    assert!(matches!(Composition::from_raw_bytes(&[0x90, 0x3C]), Err(CoreError::MalformedSendBytes { .. })));
    let whole = Composition::from_raw_bytes(&[0x90, 0x3C, 0x40]).unwrap();
    assert_eq!(whole.bytes().unwrap(), vec![0x90, 0x3C, 0x40]);
}

#[test]
fn hand_typed_bytes_show_no_kind() {
    let mut sender = Sender::new(Vec::new(), None, capabilities());
    sender.compose_raw("90 3C 00").unwrap();
    let view = composition(&sender);
    assert_eq!(view.kind, None);
    assert!(view.fields.is_empty());
    assert_eq!(view.preview, "90 3C 00");
    assert_eq!(view.preview_error, None);
    assert_eq!(view.kinds.len(), 18);
    sender.set_composition_kind(SendableKind::NoteOff);
    assert_eq!(composition(&sender).kind, Some("noteOff".to_owned()));
}

#[test]
fn a_port_with_an_interface_string_is_never_numbered_by_position() {
    let port = |i: u32, name: &str, interface: Option<&str>| PortSnapshot {
        device_index: i,
        display_name: name.to_owned(),
        interface_id: interface.map(str::to_owned),
    };
    let ports = [port(0, "Foo", None), port(1, "Foo", None), port(2, "Foo", Some("USB#VID_1"))];
    let ambiguous = ambiguous_names(&ports);
    assert_eq!(mint_key(&ports[0], &ambiguous), MintKey::Positional(0));
    assert_eq!(mint_key(&ports[1], &ambiguous), MintKey::Positional(1));
    assert_eq!(
        mint_key(&ports[2], &ambiguous),
        MintKey::Persistent(SourceKey::DeviceInterface("USB#VID_1".to_owned()))
    );
    let mut minter = midi_core::session_ids::IdMinter::new();
    let rows = midi_core::port_catalogue::scan_ports(&ports, &mut minter);
    assert_eq!(rows[2].availability, Availability::Open);
}

#[test]
fn an_oversized_transfer_is_listed_with_its_true_size() {
    let mut bytes = vec![0xF0];
    bytes.extend(std::iter::repeat(0x01).take(69_998));
    bytes.push(0xF7);
    assert_eq!(bytes.len(), 70_000);
    let mut worker = Worker::new();
    let events = worker.decode(SourceId::new(1), at(), &bytes);
    assert_eq!(events.len(), 1);
    assert_eq!(events[0].raw.len(), 65_536);
    match &events[0].message {
        MidiMessage::Invalid { reason, bytes } => {
            assert_eq!(*reason, InvalidReason::Oversized { true_len: 70_000 });
            assert_eq!(bytes.len(), 65_536);
        }
        other => panic!("unexpected {other:?}"),
    }
    assert_eq!(data_display(&events[0], DisplaySettings::default()), "truncated (70000 bytes)");
}

#[test]
fn setting_one_field_keeps_the_kind_and_every_other_field() {
    let mut c = Composition::from_kind(SendableKind::Control);
    let before_channel = c.field_value(FieldId::Channel);
    let before_value = c.field_value(FieldId::ControlValue);
    c.set_field(FieldId::Controller, "74").unwrap();
    assert_eq!(SendableKind::of(c.message()), Some(SendableKind::Control));
    assert_eq!(c.field_value(FieldId::Controller), Some("74".to_owned()));
    assert_eq!(c.field_value(FieldId::Channel), before_channel);
    assert_eq!(c.field_value(FieldId::ControlValue), before_value);
    let kept = c.clone();
    assert!(c.set_field(FieldId::Controller, "900").is_err());
    assert_eq!(c, kept);
}

#[test]
fn a_hand_typed_composition_is_stored_and_rebuilt_exactly() {
    let c = Composition::from_raw_bytes(&[0xF0, 0x7E, 0x7F, 0x06, 0x01, 0xF7]).unwrap();
    assert_eq!(PersistedComposition::capture(&c).rebuild(), Ok(c.clone()));
}

#[test]
fn a_monitor_rebuilt_from_its_settings_selects_the_same_sources() {
    let source = |id: u32, selected: bool| Source {
        id: SourceId::new(id),
        key: SourceKey::Endpoint(id as i32),
        name: format!("Port {id}"),
        group: Some(SourceGroupId::MidiSources),
        selected,
        availability: Availability::Open,
    };
    let sources = vec![source(1, false), source(2, false), source(3, false)];
    let mut monitor = Monitor::new(
        sources.clone(),
        None,
        MidiSystemStatus::Available,
        capabilities(),
        TickRate::nanosecond(),
    );
    monitor.set_source_selected(SourceId::new(2), false).unwrap();
    let current = monitor.catalogue().sources().to_vec();
    let saved = monitor.persisted_settings();
    let rebuilt = Monitor::new(
        current.clone(),
        Some(saved),
        MidiSystemStatus::Available,
        capabilities(),
        TickRate::nanosecond(),
    );
    let selected = |m: &Monitor| m.catalogue().sources().iter().map(|s| s.selected).collect::<Vec<_>>();
    assert_eq!(selected(&rebuilt), selected(&monitor));
    assert_eq!(selected(&rebuilt), vec![true, false, true]);
}

#[test]
fn the_send_log_keeps_the_newest_two_hundred_in_order() {
    let target = Target::new(TargetId::new(1), TargetKey::Endpoint(1), "Synth".to_owned(), TargetKind::Destination);
    let mut sender = Sender::new(vec![target], None, capabilities());
    sender.set_target(TargetId::new(1)).unwrap();
    let outgoing = sender.outgoing().unwrap();
    for i in 0..250u64 {
        sender.record(&outgoing, SendOutcome::Sent, Timestamp::from_millis_since_midnight(i));
    }
    let records = sender.records();
    assert_eq!(records.len(), 200);
    let ids: Vec<u32> = records.iter().map(|r| r.id.get()).collect();
    assert_eq!(ids, (50..250).collect::<Vec<u32>>());
    assert!(matches!(sender.recorded(SendRecordId::new(49)), Err(CoreError::UnknownSendRecord)));
    assert!(sender.recorded(SendRecordId::new(50)).is_ok());
}

#[test]
fn refusing_an_unknown_source_leaves_the_monitor_as_it_was() {
    let source = Source {
        id: SourceId::new(1),
        key: SourceKey::Endpoint(1),
        name: "Port 1".to_owned(),
        group: Some(SourceGroupId::MidiSources),
        selected: true,
        availability: Availability::Open,
    };
    let mut monitor = Monitor::new(vec![source], None, MidiSystemStatus::Available, capabilities(), TickRate::nanosecond());
    let display = monitor.display();
    let columns = monitor.columns().clone();
    let sources = monitor.catalogue().sources().to_vec();
    assert_eq!(
        monitor.set_source_selected(SourceId::new(9), false),
        Err(CoreError::UnknownSource { id: SourceId::new(9) })
    );
    assert_eq!(monitor.display(), display);
    assert_eq!(*monitor.columns(), columns);
    assert_eq!(monitor.catalogue().sources().to_vec(), sources);
    assert_eq!(monitor.tick_rate(), TickRate::nanosecond());
}

#[test]
fn saved_settings_carry_the_default_send_half() {
    let monitor = Monitor::new(Vec::new(), None, MidiSystemStatus::Available, capabilities(), TickRate::nanosecond());
    let saved = monitor.persisted_settings();
    assert_eq!(saved.send, midi_core::settings::SendSettings::default());
}
