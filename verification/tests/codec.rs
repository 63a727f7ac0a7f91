use midi_core::decoder::{expected_data_len, Decoded, MessageDecoder};
use midi_core::encoder::encode;
use midi_core::error::CoreError;
use midi_core::ids::{ChannelNumber, Data14, DataByte};
use midi_core::message::{InvalidReason, MessageKind, MidiMessage};

fn channel(n: u8) -> ChannelNumber {
    ChannelNumber::new(n).unwrap()
}

fn note_on(ch: u8, note: u8, velocity: u8) -> MidiMessage {
    MidiMessage::NoteOn {
        channel: channel(ch),
        note: DataByte::from_masked(note),
        velocity: DataByte::from_masked(velocity),
    }
}

#[test]
fn note_on_decodes_with_its_bytes() {
    let mut decoder = MessageDecoder::new();
    let out = decoder.feed(&[0x90, 0x3C, 0x64]);
    assert_eq!(
        out,
        vec![Decoded::Message { message: note_on(1, 60, 100), raw: vec![0x90, 0x3C, 0x64] }]
    );
}

#[test]
fn note_on_with_velocity_zero_reads_as_release() {
    let mut decoder = MessageDecoder::new();
    let out = decoder.feed(&[0x93, 0x40, 0x00]);
    match &out[..] {
        [Decoded::Message { message: MidiMessage::NoteOff { channel, note, velocity }, raw }] => {
            assert_eq!(channel.get(), 4);
            assert_eq!(note.get(), 0x40);
            assert_eq!(velocity.get(), 0);
            assert_eq!(raw, &vec![0x93, 0x40, 0x00]);
        }
        other => panic!("unexpected {other:?}"),
    }
}

#[test]
fn running_status_continues_across_packets() {
    let mut decoder = MessageDecoder::new();
    let first = decoder.feed(&[0x90, 0x3C]);
    assert!(first.is_empty());
    let second = decoder.feed(&[0x64, 0x3E, 0x50]);
    assert_eq!(second.len(), 2);
    assert_eq!(
        second[0],
        Decoded::Message { message: note_on(1, 60, 100), raw: vec![0x90, 0x3C, 0x64] }
    );
    match &second[1] {
        Decoded::Message { message, raw } => {
            assert_eq!(message, &note_on(1, 0x3E, 0x50));
            assert_eq!(raw, &vec![0x3E, 0x50]);
        }
        other => panic!("unexpected {other:?}"),
    }
}

#[test]
fn realtime_byte_inside_a_message_disturbs_nothing() {
    let mut decoder = MessageDecoder::new();
    let out = decoder.feed(&[0x90, 0x3C, 0xF8, 0x64]);
    assert_eq!(out.len(), 2);
    assert_eq!(out[0], Decoded::Message { message: MidiMessage::Clock, raw: vec![0xF8] });
    assert_eq!(
        out[1],
        Decoded::Message { message: note_on(1, 60, 100), raw: vec![0x90, 0x3C, 0x64] }
    );
}

#[test]
fn system_exclusive_keeps_its_payload() {
    let mut decoder = MessageDecoder::new();
    let out = decoder.feed(&[0xF0, 0x7E, 0x7F, 0x06, 0x01, 0xF7]);
    assert_eq!(
        out,
        vec![Decoded::Message {
            message: MidiMessage::SystemExclusive { payload: vec![0x7E, 0x7F, 0x06, 0x01] },
            raw: vec![0xF0, 0x7E, 0x7F, 0x06, 0x01, 0xF7],
        }]
    );
}

#[test]
fn unterminated_system_exclusive_is_reported_on_abandon() {
    let mut decoder = MessageDecoder::new();
    assert!(decoder.feed(&[0xF0, 0x01, 0x02]).is_empty());
    assert_eq!(decoder.abandon(), Some(Decoded::SysexIncomplete { raw: vec![0xF0, 0x01, 0x02] }));
    assert_eq!(decoder.abandon(), None);
}

#[test]
fn unknown_status_is_invalid() {
    let mut decoder = MessageDecoder::new();
    let out = decoder.feed(&[0xF4]);
    assert_eq!(
        out,
        vec![Decoded::Invalid { reason: InvalidReason::UnknownStatus, raw: vec![0xF4] }]
    );
}

#[test]
fn data_byte_without_status_is_invalid() {
    let mut decoder = MessageDecoder::new();
    let out = decoder.feed(&[0x40]);
    assert_eq!(out.len(), 1);
    assert!(matches!(out[0], Decoded::Invalid { .. }));
}

#[test]
fn expected_lengths_follow_the_status() {
    assert_eq!(expected_data_len(0x90), Some(2));
    assert_eq!(expected_data_len(0xC5), Some(1));
    assert_eq!(expected_data_len(0xF2), Some(2));
    assert_eq!(expected_data_len(0xF6), Some(0));
    assert_eq!(expected_data_len(0xF4), None);
}

#[test]
fn note_on_encodes_with_channel_nibble() {
    assert_eq!(encode(&note_on(10, 60, 100)).unwrap(), vec![0x99, 0x3C, 0x64]);
}

#[test]
fn pitch_wheel_encodes_least_significant_first() {
    let message = MidiMessage::PitchWheel { channel: channel(1), value: Data14::from_masked(8192) };
    assert_eq!(encode(&message).unwrap(), vec![0xE0, 0x00, 0x40]);
}

#[test]
fn system_exclusive_encoding_restores_framing() {
    let message = MidiMessage::SystemExclusive { payload: vec![0x01, 0x02] };
    assert_eq!(encode(&message).unwrap(), vec![0xF0, 0x01, 0x02, 0xF7]);
}

#[test]
fn invalid_message_cannot_be_encoded() {
    let message = MidiMessage::Invalid { reason: InvalidReason::TruncatedData, bytes: vec![0x90] };
    assert_eq!(
        encode(&message),
        Err(CoreError::UnsendableMessage { reason: "truncated".to_owned() })
    );
}

#[test]
fn encoded_messages_decode_back() {
    let messages = vec![
        note_on(3, 1, 2),
        MidiMessage::Control {
            channel: channel(16),
            controller: DataByte::from_masked(7),
            value: DataByte::from_masked(127),
        },
        MidiMessage::SongPositionPointer { position: Data14::from_masked(1234) },
        MidiMessage::TuneRequest,
        MidiMessage::Reset,
    ];
    for message in messages {
        let bytes = encode(&message).unwrap();
        let mut decoder = MessageDecoder::new();
        let out = decoder.feed(&bytes);
        assert_eq!(out, vec![Decoded::Message { message: message.clone(), raw: bytes.clone() }]);
    }
}

#[test]
fn kinds_group_messages_for_the_filter() {
    assert_eq!(note_on(1, 1, 1).kind(), MessageKind::NoteOnOff);
    assert_eq!(MidiMessage::Start.kind(), MessageKind::StartStopContinue);
    assert_eq!(MidiMessage::Start.display_name(), "Start");
    assert_eq!(MessageKind::NoteOnOff.label(), "Note On/Off");
}
