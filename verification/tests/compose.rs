use midi_core::composition::{Composition, PersistedComposition, PersistedField};
use midi_core::error::CoreError;
use midi_core::ids::RequestName;
use midi_core::message::MidiMessage;
use midi_core::request::{RequestLibrary, RequestOrigin};
use midi_core::sendable::{FieldId, FieldKind, SendableKind};

#[test]
fn raw_entry_keeps_the_bytes_typed() {
    let composition = Composition::parse_raw("90 3c 00").unwrap();
    assert_eq!(composition.bytes().unwrap(), vec![0x90, 0x3C, 0x00]);
    assert_eq!(composition.message().display_name(), "Note Off");
    assert!(composition.fields().is_empty());
}

#[test]
fn raw_entry_refuses_a_non_hex_character() {
    assert_eq!(
        Composition::parse_raw("90 3G"),
        Err(CoreError::MalformedSendBytes { detail: "G is not a hexadecimal digit".to_owned() })
    );
}

#[test]
fn raw_entry_refuses_nothing_at_all() {
    assert_eq!(
        Composition::parse_raw("   "),
        Err(CoreError::MalformedSendBytes { detail: "enter at least one byte".to_owned() })
    );
}

#[test]
fn raw_entry_refuses_an_odd_digit() {
    assert_eq!(
        Composition::parse_raw("903"),
        Err(CoreError::MalformedSendBytes {
            detail: "each byte needs two hexadecimal digits".to_owned()
        })
    );
}

#[test]
fn raw_entry_refuses_two_messages() {
    assert_eq!(
        Composition::parse_raw("F8 F8"),
        Err(CoreError::MalformedSendBytes { detail: "enter one message at a time".to_owned() })
    );
}

#[test]
fn raw_entry_refuses_an_unterminated_transfer() {
    assert_eq!(
        Composition::parse_raw("F0 01 02"),
        Err(CoreError::MalformedSendBytes {
            detail: "that System Exclusive message is not terminated".to_owned()
        })
    );
}

#[test]
fn raw_entry_refuses_a_truncated_message() {
    assert_eq!(
        Composition::parse_raw("90 3C"),
        Err(CoreError::MalformedSendBytes { detail: "truncated".to_owned() })
    );
}

#[test]
fn raw_entry_refuses_an_unknown_status() {
    assert_eq!(
        Composition::parse_raw("F4"),
        Err(CoreError::MalformedSendBytes { detail: "unknown status".to_owned() })
    );
}

#[test]
fn guided_composition_starts_at_defaults() {
    let composition = Composition::from_kind(SendableKind::NoteOn);
    assert_eq!(composition.bytes().unwrap(), vec![0x90, 60, 100]);
    assert_eq!(composition.field_value(FieldId::Channel), Some("1".to_owned()));
    assert_eq!(composition.field_value(FieldId::Note), Some("60".to_owned()));
    assert_eq!(composition.field_value(FieldId::Velocity), Some("100".to_owned()));
    assert_eq!(composition.field_value(FieldId::Bend), None);
}

#[test]
fn setting_a_field_changes_that_value_alone() {
    let mut composition = Composition::from_kind(SendableKind::Control);
    composition.set_field(FieldId::Channel, " 16 ").unwrap();
    composition.set_field(FieldId::ControlValue, "+5").unwrap();
    assert_eq!(composition.bytes().unwrap(), vec![0xBF, 7, 5]);
}

#[test]
fn setting_a_field_out_of_range_is_refused_and_changes_nothing() {
    let mut composition = Composition::from_kind(SendableKind::NoteOn);
    let before = composition.clone();
    assert_eq!(
        composition.set_field(FieldId::Channel, "17"),
        Err(CoreError::ValueOutOfRange { field: "Channel".to_owned(), min: 1, max: 16 })
    );
    assert_eq!(
        composition.set_field(FieldId::Velocity, "loud"),
        Err(CoreError::ValueOutOfRange { field: "Velocity".to_owned(), min: 0, max: 127 })
    );
    assert_eq!(composition, before);
}

#[test]
fn setting_a_field_the_message_lacks_is_refused() {
    let mut composition = Composition::from_kind(SendableKind::Clock);
    assert_eq!(
        composition.set_field(FieldId::Note, "60"),
        Err(CoreError::UnknownField { field: "note".to_owned() })
    );
    let mut raw = Composition::parse_raw("F8").unwrap();
    assert_eq!(
        raw.set_field(FieldId::Channel, "1"),
        Err(CoreError::UnknownField { field: "channel".to_owned() })
    );
}

#[test]
fn payload_field_takes_hexadecimal() {
    let mut composition = Composition::from_kind(SendableKind::SystemExclusive);
    assert_eq!(composition.field_value(FieldId::Payload), Some("7E 7F 06 01".to_owned()));
    composition.set_field(FieldId::Payload, "01 02 0a").unwrap();
    assert_eq!(composition.bytes().unwrap(), vec![0xF0, 0x01, 0x02, 0x0A, 0xF7]);
}

#[test]
fn pitch_wheel_bend_is_fourteen_bits() {
    let mut composition = Composition::from_kind(SendableKind::PitchWheel);
    composition.set_field(FieldId::Bend, "16383").unwrap();
    assert_eq!(composition.bytes().unwrap(), vec![0xE0, 0x7F, 0x7F]);
    assert_eq!(
        composition.set_field(FieldId::Bend, "16384"),
        Err(CoreError::ValueOutOfRange { field: "Bend".to_owned(), min: 0, max: 16383 })
    );
}

#[test]
fn fields_describe_their_bounds() {
    let fields = SendableKind::NoteOn.fields();
    assert_eq!(fields.len(), 3);
    assert_eq!(fields[0].id, FieldId::Channel);
    assert_eq!(fields[0].kind, FieldKind::Number { min: 1, max: 16 });
    assert_eq!(fields[2].label, "Velocity");
    assert_eq!(SendableKind::SystemExclusive.fields()[0].kind, FieldKind::Bytes);
    assert!(SendableKind::Reset.fields().is_empty());
}

#[test]
fn identifiers_resolve_both_ways() {
    for kind in SendableKind::ALL {
        assert_eq!(SendableKind::from_id(kind.id()), Some(kind));
    }
    assert_eq!(SendableKind::from_id("noteOnn"), None);
    assert_eq!(FieldId::from_id("timeCodeData"), Some(FieldId::TimeCodeData));
    assert_eq!(FieldId::from_id("Channel"), None);
}

#[test]
fn invalid_message_is_not_composable() {
    let invalid = MidiMessage::Invalid {
        reason: midi_core::message::InvalidReason::UnknownStatus,
        bytes: vec![0xF4],
    };
    assert_eq!(SendableKind::of(&invalid), None);
    assert_eq!(SendableKind::of(&MidiMessage::Stop), Some(SendableKind::Stop));
}

#[test]
fn stored_composition_rebuilds_exactly() {
    let mut composition = Composition::from_kind(SendableKind::AftertouchPoly);
    composition.set_field(FieldId::Note, "12").unwrap();
    composition.set_field(FieldId::Pressure, "99").unwrap();
    let stored = PersistedComposition::capture(&composition);
    assert_eq!(
        stored,
        PersistedComposition::Guided {
            kind: "aftertouchPoly".to_owned(),
            fields: vec![
                PersistedField { id: "channel".to_owned(), value: "1".to_owned() },
                PersistedField { id: "note".to_owned(), value: "12".to_owned() },
                PersistedField { id: "pressure".to_owned(), value: "99".to_owned() },
            ],
        }
    );
    assert_eq!(stored.rebuild().unwrap(), composition);
}

#[test]
fn stored_raw_composition_keeps_its_bytes() {
    let composition = Composition::parse_raw("90 3C 00").unwrap();
    let stored = PersistedComposition::capture(&composition);
    assert_eq!(stored, PersistedComposition::Raw { bytes: vec![0x90, 0x3C, 0x00] });
    assert_eq!(stored.rebuild().unwrap(), composition);
}

#[test]
fn stored_composition_of_an_unknown_kind_is_refused() {
    let stored = PersistedComposition::Guided { kind: "teleport".to_owned(), fields: vec![] };
    assert_eq!(
        stored.rebuild(),
        Err(CoreError::UnknownSendableKind { id: "teleport".to_owned() })
    );
    let stored = PersistedComposition::Guided {
        kind: "noteOn".to_owned(),
        fields: vec![PersistedField { id: "colour".to_owned(), value: "1".to_owned() }],
    };
    assert_eq!(stored.rebuild(), Err(CoreError::UnknownField { field: "colour".to_owned() }));
}

#[test]
fn library_lists_fifteen_built_ins_first() {
    let library = RequestLibrary::new();
    let all = library.all();
    assert_eq!(all.len(), 15);
    assert_eq!(all[0].name.as_str(), "Note On");
    assert_eq!(all[2].name.as_str(), "All Notes Off");
    assert_eq!(all[2].composition.bytes().unwrap(), vec![0xB0, 123, 0]);
    assert_eq!(all[14].name.as_str(), "Identity Request");
    assert_eq!(
        all[14].composition.bytes().unwrap(),
        vec![0xF0, 0x7E, 0x7F, 0x06, 0x01, 0xF7]
    );
    assert!(all.iter().all(|r| r.origin == RequestOrigin::BuiltIn));
}

#[test]
fn saving_under_a_taken_name_is_refused() {
    let mut library = RequestLibrary::new();
    let name = RequestName::parse("Note On").unwrap();
    assert_eq!(
        library.save(name, Composition::from_kind(SendableKind::Stop)),
        Err(CoreError::DuplicateRequestName { name: "Note On".to_owned() })
    );
    let mine = RequestName::parse("  Mine ").unwrap();
    library.save(mine.clone(), Composition::from_kind(SendableKind::Stop)).unwrap();
    assert_eq!(
        library.save(mine, Composition::from_kind(SendableKind::Start)),
        Err(CoreError::DuplicateRequestName { name: "Mine".to_owned() })
    );
    assert_eq!(library.saved().len(), 1);
    assert_eq!(library.all().len(), 16);
}

#[test]
fn built_ins_cannot_be_renamed_or_deleted() {
    let mut library = RequestLibrary::new();
    let reset = RequestName::parse("Reset").unwrap();
    assert_eq!(
        library.rename(&reset, RequestName::parse("Other").unwrap()),
        Err(CoreError::BuiltInRequestImmutable { name: "Reset".to_owned() })
    );
    assert_eq!(
        library.delete(&reset),
        Err(CoreError::BuiltInRequestImmutable { name: "Reset".to_owned() })
    );
}

#[test]
fn saved_requests_rename_and_delete() {
    let mut library = RequestLibrary::new();
    let first = RequestName::parse("First").unwrap();
    let second = RequestName::parse("Second").unwrap();
    library.save(first.clone(), Composition::from_kind(SendableKind::Stop)).unwrap();
    library.save(second.clone(), Composition::from_kind(SendableKind::Start)).unwrap();
    assert_eq!(
        library.rename(&first, second.clone()),
        Err(CoreError::DuplicateRequestName { name: "Second".to_owned() })
    );
    let third = RequestName::parse("Third").unwrap();
    library.rename(&first, third.clone()).unwrap();
    assert_eq!(library.saved()[0].name, third);
    assert_eq!(
        library.get(&first),
        Err(CoreError::UnknownRequest { name: "First".to_owned() })
    );
    library.delete(&third).unwrap();
    assert_eq!(library.saved().len(), 1);
    assert_eq!(
        library.delete(&third),
        Err(CoreError::UnknownRequest { name: "Third".to_owned() })
    );
    assert_eq!(
        library.rename(&third, first),
        Err(CoreError::UnknownRequest { name: "Third".to_owned() })
    );
}
