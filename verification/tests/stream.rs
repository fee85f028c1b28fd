use midi_types::{
    render, Channel, Control, MidiByteStreamParser, MidiMessage, Note, Program, QuarterFrame,
    Value14, Value7,
};

/// What the parser gives for each of the bytes, in order.
fn feed(parser: &mut MidiByteStreamParser, bytes: &[u8]) -> Vec<Option<MidiMessage>> {
    bytes.iter().map(|byte| parser.parse_byte(*byte)).collect()
}

fn messages() -> Vec<MidiMessage> {
    vec![
        MidiMessage::NoteOff(Channel::new(2), Note::new(0x76), Value7::new(0x34)),
        MidiMessage::NoteOn(Channel::new(1), Note::new(4), Value7::new(0x34)),
        MidiMessage::KeyPressure(Channel::new(10), Note::new(0x13), Value7::new(0x34)),
        MidiMessage::ControlChange(Channel::new(2), Control::new(0x76), Value7::new(0x34)),
        MidiMessage::ProgramChange(Channel::new(9), Program::new(0x15)),
        MidiMessage::ChannelPressure(Channel::new(13), Value7::new(0x37)),
        MidiMessage::PitchBendChange(Channel::new(8), Value14::new(0x56, 0x14)),
        MidiMessage::QuarterFrame(QuarterFrame::new(0x7f)),
        MidiMessage::SongPositionPointer(Value14::new(0x68, 0x7f)),
        MidiMessage::SongSelect(Value7::new(0x3f)),
        MidiMessage::TuneRequest,
        MidiMessage::TimingClock,
        MidiMessage::Start,
        MidiMessage::Continue,
        MidiMessage::Stop,
        MidiMessage::ActiveSensing,
        MidiMessage::Reset,
    ]
}

#[test]
fn note_off_comes_with_its_third_byte() {
    let mut parser = MidiByteStreamParser::new();
    assert_eq!(parser.parse_byte(0x82), None);
    assert_eq!(parser.parse_byte(0x76), None);
    assert_eq!(
        parser.parse_byte(0x34),
        Some(MidiMessage::NoteOff(Channel::new(2), Note::new(0x76), Value7::new(0x34)))
    );
}

#[test]
fn running_status_gives_a_message_for_each_pair() {
    let mut parser = MidiByteStreamParser::new();
    let off = |note, velocity| {
        Some(MidiMessage::NoteOff(Channel::new(2), Note::new(note), Value7::new(velocity)))
    };
    assert_eq!(
        feed(&mut parser, &[0x82, 0x76, 0x34, 0x33, 0x65, 0x01, 0x02]),
        vec![None, None, off(0x76, 0x34), None, off(0x33, 0x65), None, off(1, 2)]
    );
}

#[test]
fn real_time_byte_comes_at_once_and_keeps_the_pending_message() {
    let mut parser = MidiByteStreamParser::new();
    assert_eq!(
        feed(&mut parser, &[0xD6, 0xF8, 0x77]),
        vec![
            None,
            Some(MidiMessage::TimingClock),
            Some(MidiMessage::ChannelPressure(Channel::new(6), Value7::new(0x77))),
        ]
    );
}

#[test]
fn real_time_byte_between_two_data_bytes() {
    let mut parser = MidiByteStreamParser::new();
    assert_eq!(
        feed(&mut parser, &[0x90, 0x40, 0xFA, 0x7F]),
        vec![
            None,
            None,
            Some(MidiMessage::Start),
            Some(MidiMessage::NoteOn(Channel::new(0), Note::new(0x40), Value7::new(0x7F))),
        ]
    );
}

#[test]
fn reserved_real_time_bytes_are_dropped_and_keep_the_state() {
    for reserved in [0xF9u8, 0xFD] {
        let mut parser = MidiByteStreamParser::new();
        assert_eq!(
            feed(&mut parser, &[0xE3, 0x3C, reserved, 0x18]),
            vec![
                None,
                None,
                None,
                Some(MidiMessage::PitchBendChange(Channel::new(3), Value14::new(0x18, 0x3C))),
            ]
        );
    }
}

#[test]
fn tune_request_abandons_the_pending_message() {
    let mut parser = MidiByteStreamParser::new();
    assert_eq!(
        feed(&mut parser, &[0x92, 0x76, 0xF6, 0x34]),
        vec![None, None, Some(MidiMessage::TuneRequest), None]
    );
}

#[test]
fn undefined_status_abandons_the_pending_message() {
    for undefined in [0xF4u8, 0xF5] {
        let mut parser = MidiByteStreamParser::new();
        assert_eq!(
            feed(&mut parser, &[0x92, 0x76, undefined, 0x34, 0x35]),
            vec![None, None, None, None, None]
        );
    }
}

#[test]
fn system_exclusive_bytes_are_dropped() {
    let mut parser = MidiByteStreamParser::new();
    assert_eq!(
        feed(&mut parser, &[0x92, 0x76, 0xF0, 0x7E, 0x01, 0x02, 0xF7, 0x03]),
        vec![None; 8]
    );
    assert_eq!(
        feed(&mut parser, &[0x92, 0x76, 0x34]),
        vec![
            None,
            None,
            Some(MidiMessage::NoteOn(Channel::new(2), Note::new(0x76), Value7::new(0x34))),
        ]
    );
}

#[test]
fn data_bytes_before_any_status_are_dropped() {
    let mut parser = MidiByteStreamParser::new();
    for byte in 0..0x80u8 {
        assert_eq!(parser.parse_byte(byte), None);
    }
    assert_eq!(parser, MidiByteStreamParser::new());
}

#[test]
fn new_status_abandons_the_pending_message() {
    let mut parser = MidiByteStreamParser::new();
    assert_eq!(
        feed(&mut parser, &[0x92, 0x1B, 0xC3, 0x05, 0x06]),
        vec![
            None,
            None,
            None,
            Some(MidiMessage::ProgramChange(Channel::new(3), Program::new(5))),
            Some(MidiMessage::ProgramChange(Channel::new(3), Program::new(6))),
        ]
    );
}

#[test]
fn partial_message_spans_two_calls() {
    let mut parser = MidiByteStreamParser::new();
    assert_eq!(feed(&mut parser, &[0xB1, 0x07]), vec![None, None]);
    let resumed = parser.clone();
    assert_eq!(resumed, parser);
    assert_eq!(
        feed(&mut parser, &[0x64]),
        vec![Some(MidiMessage::ControlChange(Channel::new(1), Control::new(7), Value7::new(0x64)))]
    );
}

#[test]
fn stream_reads_what_render_wrote() {
    for first in messages() {
        for message in messages() {
            let mut parser = MidiByteStreamParser::new();
            let mut buffer = [0u8; 3];
            // Leave the parser in the middle of another message first.
            let len = render(&first, &mut buffer).unwrap();
            feed(&mut parser, &buffer[..len - 1]);
            if len == 1 {
                feed(&mut parser, &[0x90, 0x01]);
            }
            let len = render(&message, &mut buffer).unwrap();
            let mut expected = vec![None; len];
            expected[len - 1] = Some(message);
            assert_eq!(feed(&mut parser, &buffer[..len]), expected);
        }
    }
}

#[test]
fn every_status_byte_is_taken_without_a_message_but_for_the_single_byte_messages() {
    for status in 0x80..=0xFFu8 {
        let mut parser = MidiByteStreamParser::new();
        let expected = match status {
            0xF6 => Some(MidiMessage::TuneRequest),
            0xF8 => Some(MidiMessage::TimingClock),
            0xFA => Some(MidiMessage::Start),
            0xFB => Some(MidiMessage::Continue),
            0xFC => Some(MidiMessage::Stop),
            0xFE => Some(MidiMessage::ActiveSensing),
            0xFF => Some(MidiMessage::Reset),
            _ => None,
        };
        assert_eq!(parser.parse_byte(status), expected);
    }
}

#[test]
fn pitch_bend_comes_with_the_less_significant_byte_first() {
    let mut parser = MidiByteStreamParser::new();
    assert_eq!(parser.parse_byte(0xE8), None);
    assert_eq!(parser.parse_byte(0x14), None);
    assert_eq!(
        parser.parse_byte(0x56),
        Some(MidiMessage::PitchBendChange(Channel::new(8), Value14::new(0x56, 0x14)))
    );
}

#[test]
fn song_position_comes_with_the_less_significant_byte_first() {
    let mut parser = MidiByteStreamParser::new();
    assert_eq!(
        feed(&mut parser, &[0xF2, 0x03, 0x04, 0x05, 0x06]),
        vec![
            None,
            None,
            Some(MidiMessage::SongPositionPointer(Value14::new(0x04, 0x03))),
            None,
            Some(MidiMessage::SongPositionPointer(Value14::new(0x06, 0x05))),
        ]
    );
}
