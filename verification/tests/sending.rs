use midi_core::composition::{Composition, PersistedComposition};
use midi_core::error::CoreError;
use midi_core::ids::{PublishedName, RequestName, SendRecordId, TargetId, TargetKey, Timestamp};
use midi_core::ports::{ByteFidelity, PlatformCapabilities, PublicationSupport};
use midi_core::send_record::SendOutcome;
use midi_core::sendable::{FieldId, SendableKind};
use midi_core::sender::Sender;
use midi_core::settings::{PersistedSettings, SavedRequest};
use midi_core::target::{Target, TargetKind};

fn capabilities(publication: PublicationSupport) -> PlatformCapabilities {
    PlatformCapabilities { publication, byte_fidelity: ByteFidelity::AsTransmitted }
}

fn target(id: u32, name: &str) -> Target {
    Target::new(TargetId::new(id), TargetKey::Endpoint(id as i32), name.to_owned(), TargetKind::Destination)
}

fn sender() -> Sender {
    Sender::new(vec![target(1, "Synth"), target(2, "Drums")], None, capabilities(PublicationSupport::Supported))
}

#[test]
fn nothing_is_sent_without_a_target() {
    let sender = sender();
    assert_eq!(sender.outgoing(), Err(CoreError::NoSendTarget));
    assert!(sender.chosen_target().is_none());
}

#[test]
fn outgoing_carries_the_composed_bytes_to_the_chosen_target() {
    let mut sender = sender();
    sender.set_target(TargetId::new(2)).unwrap();
    let outgoing = sender.outgoing().unwrap();
    assert_eq!(outgoing.target, TargetId::new(2));
    assert_eq!(outgoing.target_name, "Drums");
    assert_eq!(outgoing.bytes, vec![0x90, 60, 100]);
    assert_eq!(
        sender.set_target(TargetId::new(9)),
        Err(CoreError::UnknownTarget { name: String::new() })
    );
}

#[test]
fn a_vanished_target_is_named_in_the_refusal() {
    let mut sender = sender();
    sender.set_target(TargetId::new(1)).unwrap();
    sender.replace_targets(vec![target(2, "Drums")]);
    assert_eq!(sender.outgoing(), Err(CoreError::UnknownTarget { name: "Synth".to_owned() }));
}

#[test]
fn record_keeps_the_newest_two_hundred() {
    let mut sender = sender();
    sender.set_target(TargetId::new(1)).unwrap();
    let outgoing = sender.outgoing().unwrap();
    for i in 0..205u64 {
        sender.record(&outgoing, SendOutcome::Sent, Timestamp::from_millis_since_midnight(i));
    }
    let records = sender.records();
    assert_eq!(records.len(), 200);
    assert_eq!(records[0].id, SendRecordId::new(5));
    assert_eq!(records[199].id, SendRecordId::new(204));
    assert!(sender.recorded(SendRecordId::new(4)).is_err());
    assert_eq!(sender.recorded(SendRecordId::new(5)).unwrap().target, "Synth");
    assert_eq!(sender.recorded(SendRecordId::new(0)), Err(CoreError::UnknownSendRecord));
}

#[test]
fn publishing_is_refused_where_unsupported() {
    let mut sender = Sender::new(
        vec![],
        None,
        capabilities(PublicationSupport::Unsupported { detail: "not here".to_owned() }),
    );
    assert_eq!(
        sender.set_published(true),
        Err(CoreError::PublicationUnsupported { detail: "not here".to_owned() })
    );
    assert!(!sender.publication().published);
}

#[test]
fn withdrawing_the_published_source_unchooses_it() {
    let published = Target::new(
        TargetId::new(3),
        TargetKey::PublishedSource,
        "MIDI Monitor".to_owned(),
        TargetKind::PublishedSource,
    );
    let mut sender = Sender::new(vec![published], None, capabilities(PublicationSupport::Supported));
    sender.set_published(true).unwrap();
    sender.set_target(TargetId::new(3)).unwrap();
    sender.set_published(false).unwrap();
    assert_eq!(sender.outgoing(), Err(CoreError::NoSendTarget));
}

#[test]
fn publication_failure_is_reported_until_cleared() {
    let mut sender = sender();
    sender.set_publication_name(PublishedName::parse("Desk").unwrap());
    sender.set_published(true).unwrap();
    sender.report_publication_failure("refused");
    assert!(!sender.publication().published);
    assert_eq!(sender.publication().name.as_str(), "Desk");
    assert_eq!(sender.publication_error(), Some("refused"));
    sender.clear_publication_error();
    assert_eq!(sender.publication_error(), None);
}

#[test]
fn composing_and_saving_requests() {
    let mut sender = sender();
    sender.set_composition_kind(SendableKind::Program);
    sender.set_composition_field(FieldId::Program, "5").unwrap();
    sender.save_request(RequestName::parse("Patch five").unwrap()).unwrap();
    sender.compose_raw("F8").unwrap();
    assert_eq!(sender.composition().bytes().unwrap(), vec![0xF8]);
    assert!(sender.compose_raw("F8 F8").is_err());
    assert_eq!(sender.composition().bytes().unwrap(), vec![0xF8]);
    sender.select_request(&RequestName::parse("Patch five").unwrap()).unwrap();
    assert_eq!(sender.composition().bytes().unwrap(), vec![0xC0, 5]);
    assert_eq!(
        sender.select_request(&RequestName::parse("Nothing").unwrap()),
        Err(CoreError::UnknownRequest { name: "Nothing".to_owned() })
    );
}

#[test]
fn saved_requests_survive_a_restart() {
    let mut sender = sender();
    sender.set_target(TargetId::new(2)).unwrap();
    sender.set_composition(Composition::parse_raw("90 3C 00").unwrap());
    sender.save_request(RequestName::parse("Typed").unwrap()).unwrap();
    let send = sender.persisted_settings();
    assert_eq!(send.target, Some(TargetKey::Endpoint(2)));
    assert_eq!(send.saved_requests.len(), 1);
    let settings = PersistedSettings::default().with_send(send);
    let restored = Sender::new(vec![target(2, "Drums")], Some(&settings), capabilities(PublicationSupport::Supported));
    assert_eq!(restored.library().saved().len(), 1);
    assert_eq!(restored.library().saved()[0].composition.bytes().unwrap(), vec![0x90, 0x3C, 0x00]);
    assert_eq!(restored.chosen_target().map(|t| t.id), Some(TargetId::new(2)));
}

#[test]
fn unreadable_and_repeated_saved_requests_are_dropped() {
    let mut settings = PersistedSettings::default();
    let entry = |name: &str, bytes: Vec<u8>| SavedRequest {
        name: RequestName::parse(name).unwrap(),
        description: String::new(),
        composition: PersistedComposition::Raw { bytes },
    };
    settings.send.saved_requests = vec![
        entry("Good", vec![0xF8]),
        entry("Good", vec![0xFA]),
        entry("Broken", vec![0xF8, 0xF8]),
        entry("Other", vec![0xFC]),
    ];
    let sender = Sender::new(vec![], Some(&settings), capabilities(PublicationSupport::Supported));
    let saved = sender.library().saved();
    assert_eq!(saved.len(), 2);
    assert_eq!(saved[0].name.as_str(), "Good");
    assert_eq!(saved[0].composition.bytes().unwrap(), vec![0xF8]);
    assert_eq!(saved[1].name.as_str(), "Other");
}
