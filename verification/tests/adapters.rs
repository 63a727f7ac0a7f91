use midi_core::column::Column;
use midi_core::command_args::channel_mode_of;
use midi_core::command_args::parse_group;
use midi_core::command_args::{columns_from_ids, kinds_from_ids};
use midi_core::dto::ChannelModeDto;
use midi_core::dto::wire_group_id;
use midi_core::filter::ChannelMode;
use midi_core::ipc_error::IpcError;
use midi_core::message::MessageKind;
use midi_core::adapter::{EndpointSnapshot, PortSnapshot};
use midi_core::error::CoreError;
use midi_core::ids::{Arrival, DataByte, HostTicks, HostTime, SourceGroupId, SourceId, SourceKey, TargetKey, Timestamp};
use midi_core::message::{InvalidReason, MidiMessage};
use midi_core::ids::ChannelNumber;
use midi_core::packed::{unpack_invalid, unpack_short};
use midi_core::port_catalogue::{
    ambiguous_names, destination_row_id, mint_key, open_failure_detail, ports_to_close,
    ports_to_open, reason_of, scan_endpoints, scan_ports, selected_port_ids, wants_destination,
    DESTINATION_ROW_LABEL, DESTINATION_UNSUPPORTED, UNMATCHABLE_SELECTION,
};
use midi_core::session_ids::{IdMinter, MintKey, TargetIdMinter};
use midi_core::source::{Availability, Source};
use midi_core::worker::Worker;

fn port(index: u32, name: &str, interface: Option<&str>) -> PortSnapshot {
    PortSnapshot {
        device_index: index,
        display_name: name.to_owned(),
        interface_id: interface.map(str::to_owned),
    }
}

fn endpoint(id: i32, name: &str, offline: bool) -> EndpointSnapshot {
    EndpointSnapshot { unique_id: id, display_name: name.to_owned(), offline }
}

fn at(millis: u64) -> Arrival {
    Arrival::new(
        Timestamp::from_millis_since_midnight(millis),
        HostTime::Stamped(HostTicks::new(millis)),
    )
}

fn row(id: u32, key: SourceKey, selected: bool) -> Source {
    Source {
        id: SourceId::new(id),
        key,
        name: "row".to_owned(),
        group: Some(SourceGroupId::MidiSources),
        selected,
        availability: Availability::Open,
    }
}

#[test]
fn names_shared_by_ports_without_interface_are_ambiguous() {
    let ports = vec![
        port(0, "Keys", None),
        port(1, "Pads", Some("iface-pads")),
        port(2, "Keys", None),
        port(3, "Drums", None),
        port(4, "Pads", None),
    ];
    assert_eq!(ambiguous_names(&ports), vec!["Keys".to_owned(), "Keys".to_owned()]);
}

#[test]
fn ports_with_interface_strings_are_never_ambiguous() {
    let ports = vec![port(0, "Synth", Some("a")), port(1, "Synth", Some("b"))];
    assert!(ambiguous_names(&ports).is_empty());
}

#[test]
fn ambiguous_ports_are_minted_by_position() {
    let ambiguous = vec!["Keys".to_owned()];
    assert_eq!(mint_key(&port(7, "Keys", None), &ambiguous), MintKey::Positional(7));
    assert_eq!(
        mint_key(&port(2, "Pads", None), &ambiguous),
        MintKey::Persistent(SourceKey::PortName("Pads".to_owned()))
    );
    assert_eq!(
        mint_key(&port(3, "Drums", Some("iface")), &ambiguous),
        MintKey::Persistent(SourceKey::DeviceInterface("iface".to_owned()))
    );
}

#[test]
fn a_key_seen_again_keeps_its_id() {
    let mut minter = IdMinter::new();
    let a = minter.id_for(MintKey::Persistent(SourceKey::Endpoint(10)));
    let b = minter.id_for(MintKey::Positional(0));
    let again = minter.id_for(MintKey::Persistent(SourceKey::Endpoint(10)));
    assert_eq!(a.get(), 1);
    assert_eq!(b.get(), 2);
    assert_eq!(again, a);
    assert_eq!(minter.minted(), 2);
}

#[test]
fn targets_are_numbered_apart_from_sources() {
    let mut minter = TargetIdMinter::new();
    let a = minter.id_for(TargetKey::DeviceName("Out A".to_owned()));
    let b = minter.id_for(TargetKey::DeviceName("Out B".to_owned()));
    assert_eq!(a.get(), 1);
    assert_eq!(b.get(), 2);
    assert_eq!(minter.id_for(TargetKey::DeviceName("Out A".to_owned())), a);
    assert_eq!(minter.minted(), 2);
}

#[test]
fn port_scan_lists_every_port_then_the_destination_row() {
    let ports = vec![port(0, "Keys", None), port(1, "Keys", None), port(2, "Pads", Some("iface"))];
    let mut minter = IdMinter::new();
    let rows = scan_ports(&ports, &mut minter);
    assert_eq!(rows.len(), 4);
    let ids: Vec<u32> = rows.iter().map(|r| r.id.get()).collect();
    assert_eq!(ids, vec![1, 2, 3, 4]);
    assert_eq!(
        rows[0].availability,
        Availability::Unopenable { detail: UNMATCHABLE_SELECTION.to_owned() }
    );
    assert_eq!(rows[2].availability, Availability::Open);
    assert_eq!(rows[2].key, SourceKey::DeviceInterface("iface".to_owned()));
    assert_eq!(rows[2].group, Some(SourceGroupId::MidiSources));
    assert!(!rows[2].selected);
    assert_eq!(rows[3].key, SourceKey::VirtualDestination);
    assert_eq!(rows[3].name, DESTINATION_ROW_LABEL);
    assert_eq!(rows[3].group, None);
    assert_eq!(
        rows[3].availability,
        Availability::Unsupported { detail: DESTINATION_UNSUPPORTED.to_owned() }
    );

    // A second scan after the ambiguity is gone keeps the persistent ids.
    let again = scan_ports(&[port(0, "Pads", Some("iface"))], &mut minter);
    assert_eq!(again[0].id.get(), 3);
    assert_eq!(again[1].id.get(), 4);
}

#[test]
fn endpoint_scan_marks_offline_endpoints_absent() {
    let endpoints = vec![endpoint(100, "Keys", false), endpoint(200, "Drums", true)];
    let mut minter = IdMinter::new();
    let rows = scan_endpoints(&endpoints, &mut minter);
    assert_eq!(rows.len(), 3);
    assert_eq!(rows[0].availability, Availability::Open);
    assert_eq!(rows[1].availability, Availability::Absent);
    assert_eq!(rows[1].key, SourceKey::Endpoint(200));
    assert_eq!(rows[2].availability, Availability::Open);
    assert_eq!(rows[2].name, DESTINATION_ROW_LABEL);

    // A device unplugged and replugged keeps the id it had.
    let later = scan_endpoints(&[endpoint(200, "Drums", false)], &mut minter);
    assert_eq!(later[0].id, rows[1].id);
    assert_eq!(later[1].id, rows[2].id);
}

#[test]
fn only_selected_real_ports_are_opened_and_unticked_ones_closed() {
    let sources = vec![
        row(1, SourceKey::Endpoint(1), true),
        row(2, SourceKey::Endpoint(2), false),
        row(3, SourceKey::VirtualDestination, true),
        row(4, SourceKey::Endpoint(4), true),
    ];
    let chosen = selected_port_ids(&sources);
    assert_eq!(chosen, vec![SourceId::new(1), SourceId::new(4)]);

    let listed = vec![SourceId::new(1), SourceId::new(2), SourceId::new(4)];
    let open = vec![SourceId::new(4), SourceId::new(2)];
    assert_eq!(ports_to_open(&listed, &chosen, &open), vec![0]);
    assert_eq!(ports_to_close(&open, &chosen), vec![SourceId::new(2)]);

    assert!(wants_destination(&sources));
    assert_eq!(destination_row_id(&sources), Some(SourceId::new(3)));
    assert!(!wants_destination(&sources[..2]));
    assert_eq!(destination_row_id(&sources[..2]), None);
}

#[test]
fn port_failures_carry_the_platform_detail() {
    let unavailable = CoreError::PortUnavailable { name: "Keys".to_owned(), detail: "in use".to_owned() };
    assert_eq!(reason_of(&unavailable), "in use");
    let system = CoreError::MidiSystemUnavailable { detail: "no server".to_owned() };
    assert_eq!(reason_of(&system), "no server");
    assert_eq!(reason_of(&CoreError::NoSendTarget), CoreError::NoSendTarget.describe());
}

#[test]
fn exclusive_use_is_named_and_other_codes_are_quoted() {
    assert_eq!(open_failure_detail(68), "Another program is using this port.");
    assert_eq!(open_failure_detail(5), "Windows would not open this port (error 5).");
    assert_eq!(open_failure_detail(1024), "Windows would not open this port (error 1024).");
}

#[test]
fn packed_short_messages_lose_their_padding() {
    assert_eq!(unpack_short(0x0040_3C90), vec![0x90, 0x3C, 0x40]);
    assert_eq!(unpack_short(0x0000_05C0), vec![0xC0, 0x05]);
    assert_eq!(unpack_short(0x0000_00F8), vec![0xF8]);
    assert_eq!(unpack_short(0x0000_00F4), vec![0xF4]);
    assert_eq!(unpack_short(0x0000_00F6), vec![0xF6]);
}

#[test]
fn packed_invalid_messages_report_what_is_known() {
    assert_eq!(unpack_invalid(0x0000_00F4), (vec![0xF4], InvalidReason::ExtentUnknown));
    assert_eq!(
        unpack_invalid(0x0012_3480),
        (vec![0x80, 0x34, 0x12], InvalidReason::ReportedInvalid)
    );
    assert_eq!(unpack_invalid(0x0000_3CD0), (vec![0xD0, 0x3C], InvalidReason::ReportedInvalid));
}

#[test]
fn a_message_split_across_deliveries_is_joined() {
    let mut worker = Worker::new();
    let source = SourceId::new(1);
    assert!(worker.decode(source, at(1), &[0x90, 0x3C]).is_empty());
    let events = worker.decode(source, at(2), &[0x64]);
    assert_eq!(events.len(), 1);
    assert_eq!(events[0].id.get(), 0);
    assert_eq!(events[0].source, source);
    assert_eq!(events[0].arrival, at(2));
    assert_eq!(
        events[0].message,
        MidiMessage::NoteOn {
            channel: ChannelNumber::new(1).unwrap(),
            note: DataByte::from_masked(0x3C),
            velocity: DataByte::from_masked(0x64),
        }
    );
    assert_eq!(events[0].raw, vec![0x90, 0x3C, 0x64]);
}

#[test]
fn sources_decode_independently_and_events_are_numbered_in_order() {
    let mut worker = Worker::new();
    let first = SourceId::new(1);
    let second = SourceId::new(2);
    assert!(worker.decode(first, at(1), &[0xB0, 0x07]).is_empty());
    let other = worker.decode(second, at(2), &[0xF8, 0xC1, 0x05]);
    assert_eq!(other.len(), 2);
    assert_eq!(other[0].message, MidiMessage::Clock);
    assert_eq!(other[0].id.get(), 0);
    assert_eq!(other[1].id.get(), 1);
    let finished = worker.decode(first, at(3), &[0x7F]);
    assert_eq!(finished.len(), 1);
    assert_eq!(finished[0].id.get(), 2);
    assert_eq!(finished[0].raw, vec![0xB0, 0x07, 0x7F]);
}

#[test]
fn an_interrupted_transfer_is_reported_when_its_port_closes() {
    let mut worker = Worker::new();
    let source = SourceId::new(5);
    assert!(worker.decode(source, at(1), &[0xF0, 0x43, 0x10]).is_empty());
    let event = worker.abandon(source, at(9)).expect("a transfer was in progress");
    assert_eq!(
        event.message,
        MidiMessage::Invalid { reason: InvalidReason::TruncatedData, bytes: vec![0xF0, 0x43, 0x10] }
    );
    assert_eq!(event.raw, vec![0xF0, 0x43, 0x10]);
    assert_eq!(event.arrival, at(9));
    assert!(worker.abandon(source, at(10)).is_none());
}

#[test]
fn bytes_the_system_rejected_become_an_invalid_row() {
    let mut worker = Worker::new();
    let event = worker.reject(SourceId::new(3), at(4), vec![0x80, 0x34], InvalidReason::ReportedInvalid);
    assert_eq!(event.id.get(), 0);
    assert_eq!(
        event.message,
        MidiMessage::Invalid { reason: InvalidReason::ReportedInvalid, bytes: vec![0x80, 0x34] }
    );
    assert_eq!(event.raw, vec![0x80, 0x34]);
    let next = worker.decode(SourceId::new(3), at(5), &[0xFA]);
    assert_eq!(next[0].id.get(), 1);
    assert_eq!(next[0].message, MidiMessage::Start);
}

#[test]
fn group_identifiers_read_back_as_their_groups() {
    for group in [SourceGroupId::MidiSources, SourceGroupId::SpyOnOutput] {
        assert!(matches!(parse_group(wire_group_id(group)), Ok(g) if g == group));
    }
    assert!(matches!(parse_group("midiSources"), Ok(SourceGroupId::MidiSources)));
    assert!(matches!(parse_group("spyOnOutput"), Ok(SourceGroupId::SpyOnOutput)));
    match parse_group("outputs") {
        Err(IpcError::UnknownGroup { id }) => assert_eq!(id, "outputs"),
        other => panic!("unexpected {other:?}"),
    }
}

#[test]
fn checkbox_and_column_identifiers_name_kinds_and_columns_in_panel_order() {
    let ids = vec!["clock".to_owned(), "noteOnOff".to_owned(), "nonsense".to_owned()];
    assert_eq!(kinds_from_ids(&ids), vec![MessageKind::NoteOnOff, MessageKind::Clock]);
    let columns = vec!["data".to_owned(), "time".to_owned(), "Chan".to_owned()];
    assert_eq!(columns_from_ids(&columns), vec![Column::Time, Column::Data]);
    assert!(kinds_from_ids(&[]).is_empty());
}

#[test]
fn the_channel_radio_pair_refuses_channels_outside_one_to_sixteen() {
    assert_eq!(channel_mode_of(ChannelModeDto::AllChannels), Ok(ChannelMode::AllChannels));
    assert_eq!(
        channel_mode_of(ChannelModeDto::OneChannel(16)),
        Ok(ChannelMode::OneChannel(ChannelNumber::new(16).unwrap()))
    );
    assert_eq!(
        channel_mode_of(ChannelModeDto::OneChannel(0)),
        Err(CoreError::ChannelOutOfRange { value: 0 })
    );
    assert_eq!(
        channel_mode_of(ChannelModeDto::OneChannel(17)),
        Err(CoreError::ChannelOutOfRange { value: 17 })
    );
}
