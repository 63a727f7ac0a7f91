use midi_core::clock::{rate_from_timebase, reported_rate, timestamp_from_elapsed};
use midi_core::controller;
use midi_core::display::{
    ControllerFormat, DataFormat, DisplaySettings, ExpertMode, NoteFormat, ProgramNumbering,
    TimeFormat,
};
use midi_core::event::MidiEvent;
use midi_core::ids::{
    Arrival, ChannelNumber, DataByte, EventId, HostTicks, HostTime, SourceId, TickRate, Timestamp,
};
use midi_core::message::{InvalidReason, MidiMessage};
use midi_core::rendering::{
    controller_display, data_display, message_display, note_display, time_display,
};

fn event(message: MidiMessage, raw: Vec<u8>, host: HostTime) -> MidiEvent {
    MidiEvent::new(
        EventId::first(),
        Arrival::new(Timestamp::from_millis_since_midnight(3_723_004), host),
        SourceId::new(1),
        message,
        raw,
    )
}

fn release() -> MidiEvent {
    event(
        MidiMessage::NoteOff {
            channel: ChannelNumber::new(1).unwrap(),
            note: DataByte::from_masked(60),
            velocity: DataByte::zero(),
        },
        vec![0x90, 0x3C, 0x00],
        HostTime::ZeroMeaningNow { received: HostTicks::new(1_500_000_000) },
    )
}

#[test]
fn note_names_follow_the_chosen_convention() {
    let mut settings = DisplaySettings::default();
    assert_eq!(note_display(60, settings), "C3");
    assert_eq!(note_display(0, settings), "C-2");
    assert_eq!(note_display(61, settings), "C#3");
    assert_eq!(note_display(127, settings), "G8");
    settings.note = NoteFormat::NameMiddleC4;
    assert_eq!(note_display(60, settings), "C4");
    settings.note = NoteFormat::Hexadecimal;
    assert_eq!(note_display(60, settings), "3C");
    settings.note = NoteFormat::Decimal;
    assert_eq!(note_display(60, settings), "60");
}

#[test]
fn controllers_show_their_names_or_numbers() {
    let mut settings = DisplaySettings::default();
    assert_eq!(controller_display(7, settings), "Volume (MSB)");
    assert_eq!(controller_display(3, settings), "3");
    assert_eq!(controller_display(123, settings), "All Notes Off");
    settings.controller = ControllerFormat::Hexadecimal;
    assert_eq!(controller_display(123, settings), "7B");
    assert_eq!(controller::name(64), Some("Sustain"));
    assert_eq!(controller::name(200), None);
}

#[test]
fn data_cell_renders_each_value_by_its_own_setting() {
    let mut settings = DisplaySettings::default();
    assert_eq!(data_display(&release(), settings), "C3 0");
    settings.data = DataFormat::Hexadecimal;
    let pressed = event(
        MidiMessage::Control {
            channel: ChannelNumber::new(1).unwrap(),
            controller: DataByte::from_masked(7),
            value: DataByte::from_masked(127),
        },
        vec![0xB0, 7, 127],
        HostTime::Stamped(HostTicks::new(1)),
    );
    assert_eq!(data_display(&pressed, settings), "Volume (MSB) 7F");
    let sysex = event(
        MidiMessage::SystemExclusive { payload: vec![1, 2, 3, 4] },
        vec![0xF0, 1, 2, 3, 4, 0xF7],
        HostTime::Stamped(HostTicks::new(1)),
    );
    assert_eq!(data_display(&sysex, settings), "6 bytes");
    let invalid = event(
        MidiMessage::Invalid { reason: InvalidReason::UnknownStatus, bytes: vec![0xF4] },
        vec![0xF4],
        HostTime::Stamped(HostTicks::new(1)),
    );
    assert_eq!(data_display(&invalid, settings), "unknown status (1 bytes)");
}

#[test]
fn program_numbers_count_from_one_by_default() {
    let program = event(
        MidiMessage::Program { channel: ChannelNumber::new(1).unwrap(), program: DataByte::zero() },
        vec![0xC0, 0],
        HostTime::Stamped(HostTicks::new(1)),
    );
    let mut settings = DisplaySettings::default();
    assert_eq!(data_display(&program, settings), "1");
    settings.program = ProgramNumbering::FromZero;
    assert_eq!(data_display(&program, settings), "0");
    assert_eq!(ProgramNumbering::FromOne.displayed(127), 128);
    assert_eq!(ProgramNumbering::FromOne.label(), "1 \u{2013} 128 (Standard)");
}

#[test]
fn expert_mode_shows_what_arrived() {
    let mut settings = DisplaySettings::default();
    assert_eq!(message_display(&release(), settings), "Note Off");
    settings.expert = ExpertMode::On;
    assert_eq!(message_display(&release(), settings), "Note On");
    assert_eq!(data_display(&release(), settings), "903C00");
    assert_eq!(ExpertMode::from(true), ExpertMode::On);
    assert!(ExpertMode::On.is_on());
    assert_eq!(ExpertMode::On.notes()[2], "Zero timestamp shows 0");
    assert_eq!(ExpertMode::Off.notes()[1], "Note On with velocity 0 shows as Note Off");
}

#[test]
fn time_cell_follows_the_time_format() {
    let rate = TickRate::nanosecond();
    let mut settings = DisplaySettings::default();
    assert_eq!(time_display(&release(), settings, rate), "01:02:03.004");
    settings.time = TimeFormat::HostInteger;
    assert_eq!(time_display(&release(), settings, rate), "1500000000");
    settings.time = TimeFormat::HostSeconds;
    assert_eq!(time_display(&release(), settings, rate), "1.500000000");
    settings.time = TimeFormat::HostNanoseconds;
    assert_eq!(time_display(&release(), settings, TickRate::new(3).unwrap()), "500000000000000000");
    settings.expert = ExpertMode::On;
    assert_eq!(time_display(&release(), settings, rate), "0");
}

#[test]
fn data_format_writes_unpadded_uppercase_hex() {
    assert_eq!(DataFormat::Hexadecimal.write(0x0ABC), "ABC");
    assert_eq!(DataFormat::Decimal.write(16383), "16383");
    assert_eq!(TimeFormat::HostSeconds.label(), "Host time (seconds)");
}

#[test]
fn clock_arithmetic() {
    assert_eq!(timestamp_from_elapsed(-5), Timestamp::from_millis_since_midnight(0));
    assert_eq!(timestamp_from_elapsed(86_400_001).to_display(), "00:00:00.001");
    assert_eq!(rate_from_timebase(125, 3), 24_000_000);
    assert_eq!(rate_from_timebase(0, 3), 0);
    assert_eq!(reported_rate(0).get(), 1_000_000_000);
    assert_eq!(reported_rate(24_000_000).get(), 24_000_000);
}
