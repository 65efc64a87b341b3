use midi_controller::frame::{classify, frame_from, is_well_formed, Frame, Parsed, DIAL_STATUS};

#[test]
fn classify_notes_on_every_channel() {
    for channel in 0..16u8 {
        assert_eq!(classify(&[0x90 | channel, 59, 88]), Frame::NoteOn { key: 59 });
        assert_eq!(classify(&[0x80 | channel, 60, 0]), Frame::NoteOff { key: 60 });
    }
}

#[test]
fn classify_control_change() {
    assert_eq!(
        classify(&[176, 114, 65]),
        Frame::ControlChange { controller: 114, value: 65 }
    );
    assert_eq!(classify(&[0xB5, 1, 127]), Frame::ControlChange { controller: 1, value: 127 });
}

#[test]
fn classify_pitch_bend() {
    assert_eq!(classify(&[224, 0, 76]), Frame::PitchBend);
    assert_eq!(classify(&[0xEF, 1, 2]), Frame::PitchBend);
}

#[test]
fn classify_dial() {
    assert_eq!(DIAL_STATUS, 0xC0);
    assert_eq!(classify(&[192, 64]), Frame::ProgramChange { value: 64 });
    assert_eq!(classify(&[192, 0]), Frame::ProgramChange { value: 0 });
    assert_eq!(classify(&[192, 127]), Frame::ProgramChange { value: 127 });
}

#[test]
fn classify_dial_only_on_the_first_channel_and_two_bytes() {
    assert_eq!(classify(&[193, 64]), Frame::Other);
    assert_eq!(classify(&[192, 64, 0]), Frame::Other);
    assert_eq!(classify(&[193, 64, 0]), Frame::Other);
}

#[test]
fn classify_short_messages() {
    assert_eq!(classify(&[0x90]), Frame::Other);
    assert_eq!(classify(&[0x90, 59]), Frame::Other);
    assert_eq!(classify(&[0xB0, 1]), Frame::Other);
    assert_eq!(classify(&[0xF8]), Frame::Other);
    assert_eq!(classify(&[0]), Frame::Other);
}

#[test]
fn classify_other_kinds() {
    assert_eq!(classify(&[0xA0, 1, 2]), Frame::Other);
    assert_eq!(classify(&[0xD0, 1, 2]), Frame::Other);
    assert_eq!(classify(&[0xF1, 1, 2]), Frame::Other);
    assert_eq!(classify(&[0xFF, 1, 2]), Frame::Other);
    assert_eq!(classify(&[0x10, 1, 2]), Frame::Other);
    assert_eq!(classify(&[0x7F, 1, 2]), Frame::Other);
}

#[test]
fn classify_system_exclusive() {
    assert_eq!(classify(&[240, 30, 127, 66, 2, 0, 0, 16, 127, 247]), Frame::Other);
    assert_eq!(classify(&[240, 0, 32, 107, 127, 247]), Frame::Other);
    assert_eq!(classify(&[240, 0, 32, 107]), Frame::Other);
    assert_eq!(classify(&[240, 126, 0, 6, 2, 247]), Frame::Other);
    assert_eq!(classify(&[240, 127, 0, 6, 2]), Frame::Other);
    assert_eq!(classify(&[240, 30, 247]), Frame::Other);
    assert_eq!(classify(&[240, 126]), Frame::Other);
}

#[test]
fn classify_every_three_byte_status() {
    for status in 0..=255u8 {
        let data = [status, 5, 6, 7, 8];
        assert!(is_well_formed(&data));
        let expected = match status {
            0x80..=0x8F => Frame::NoteOff { key: 5 },
            0x90..=0x9F => Frame::NoteOn { key: 5 },
            0xB0..=0xBF => Frame::ControlChange { controller: 5, value: 6 },
            0xE0..=0xEF => Frame::PitchBend,
            _ => Frame::Other,
        };
        assert_eq!(classify(&data), expected);
    }
}

#[test]
fn well_formed_messages() {
    assert!(is_well_formed(&[0x90, 1, 2]));
    assert!(is_well_formed(&[192, 5]));
    assert!(is_well_formed(&[193]));
    assert!(is_well_formed(&[240]));
    assert!(is_well_formed(&[240, 126]));
    assert!(is_well_formed(&[240, 30, 247]));
    assert!(is_well_formed(&[240, 126, 0, 6, 2]));
    assert!(is_well_formed(&[240, 127, 0, 6, 2]));
    assert!(is_well_formed(&[240, 0, 32, 107]));
}

#[test]
fn malformed_messages() {
    assert!(!is_well_formed(&[]));
    assert!(!is_well_formed(&[192]));
    assert!(!is_well_formed(&[240, 126, 0]));
    assert!(!is_well_formed(&[240, 126, 0, 6]));
    assert!(!is_well_formed(&[240, 127, 0]));
    assert!(!is_well_formed(&[240, 127, 0, 6]));
    assert!(!is_well_formed(&[240, 0, 32]));
}

#[test]
fn frame_from_each_kind() {
    let data = [0x90u8, 9, 8];
    assert_eq!(frame_from(Parsed::NoteOn { key: 9 }, &data), Frame::NoteOn { key: 9 });
    assert_eq!(frame_from(Parsed::NoteOff { key: 9 }, &data), Frame::NoteOff { key: 9 });
    assert_eq!(
        frame_from(Parsed::ControlChange { control: 1, value: 0 }, &data),
        Frame::ControlChange { controller: 1, value: 0 }
    );
    assert_eq!(frame_from(Parsed::PitchBend, &data), Frame::PitchBend);
    assert_eq!(frame_from(Parsed::PolyKeyPressure, &data), Frame::Other);
    assert_eq!(frame_from(Parsed::ProgramChange, &data), Frame::Other);
    assert_eq!(frame_from(Parsed::ChannelPressure, &data), Frame::Other);
    assert_eq!(frame_from(Parsed::SysEx, &data), Frame::Other);
    assert_eq!(frame_from(Parsed::Invalid, &data), Frame::Other);
    assert_eq!(frame_from(Parsed::Invalid, &[192, 77]), Frame::ProgramChange { value: 77 });
    assert_eq!(frame_from(Parsed::ProgramChange, &[192, 77, 0]), Frame::Other);
}
