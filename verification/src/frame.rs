//! From the bytes of a MIDI message to the frame that the translator
//! works on.

use midi_control::MidiMessage;
use vstd::prelude::*;

verus! {

/// What the MIDI parser makes of a message: its kind, and of the kinds
/// that the controller uses the data bytes that matter.
#[derive(Debug, Clone, Copy, PartialEq, Eq, Structural)]
pub enum Parsed {
    Invalid,
    NoteOn { key: u8 },
    NoteOff { key: u8 },
    PolyKeyPressure,
    ControlChange { control: u8, value: u8 },
    ProgramChange,
    ChannelPressure,
    PitchBend,
    SysEx,
}

/// One message of the controller, as the translator takes it.
#[derive(Debug, Clone, Copy, PartialEq, Eq, Structural)]
pub enum Frame {
    /// A key went down.
    NoteOn { key: u8 },
    /// A key came up.
    NoteOff { key: u8 },
    /// A controller changed its value.
    ControlChange { controller: u8, value: u8 },
    /// The dial stands at a new position.
    ProgramChange { value: u8 },
    /// The pitch wheel moved; nothing listens to it.
    PitchBend,
    /// Anything else.
    Other,
}

/// Status byte of the program change that the dial sends.
pub const DIAL_STATUS: u8 = 192;

/// Whether the parser can take the message. It reads a system exclusive
/// message past its third byte without looking at the length: a universal
/// one needs five bytes, one with a long manufacturer number four.
pub open spec fn parse_defined(data: Seq<u8>) -> bool {
    data.len() >= 3 && data[0] == 0xF0 ==> {
        &&& data[1] == 0x7E || data[1] == 0x7F ==> data.len() >= 5
        &&& data[1] == 0 ==> data.len() >= 4
    }
}

/// The kind of a message, as the parser tells it from the status byte. A
/// message of fewer than three bytes has no kind. Below the system
/// messages the high half of the status byte decides and the low half, the
/// channel, is dropped.
pub open spec fn parsed(data: Seq<u8>) -> Parsed {
    if data.len() < 3 {
        Parsed::Invalid
    } else {
        let event = if data[0] < 0xF0 {
            data[0] & 0xF0
        } else {
            data[0]
        };
        if event == 0x80 {
            Parsed::NoteOff { key: data[1] }
        } else if event == 0x90 {
            Parsed::NoteOn { key: data[1] }
        } else if event == 0xA0 {
            Parsed::PolyKeyPressure
        } else if event == 0xB0 {
            Parsed::ControlChange { control: data[1], value: data[2] }
        } else if event == 0xC0 {
            Parsed::ProgramChange
        } else if event == 0xD0 {
            Parsed::ChannelPressure
        } else if event == 0xE0 {
            Parsed::PitchBend
        } else if event == 0xF0 {
            Parsed::SysEx
        } else {
            Parsed::Invalid
        }
    }
}

/// Calls `MidiMessage::from` of the crate midi_control on the bytes and
/// keeps the kind, the key of a note and the two bytes of a control change.
/// Not proved: that the crate tells the kinds apart as `parsed` says, and
/// that it returns on every message that `parse_defined` admits.
#[verifier::external_body]
fn parse_message(data: &[u8]) -> (m: Parsed)
    requires
        parse_defined(data@),
    ensures
        m == parsed(data@),
{
    match MidiMessage::from(data) {
        MidiMessage::Invalid => Parsed::Invalid,
        MidiMessage::NoteOn(_, e) => Parsed::NoteOn { key: e.key },
        MidiMessage::NoteOff(_, e) => Parsed::NoteOff { key: e.key },
        MidiMessage::PolyKeyPressure(_, _) => Parsed::PolyKeyPressure,
        MidiMessage::ControlChange(_, e) => Parsed::ControlChange { control: e.control, value: e.value },
        MidiMessage::ProgramChange(_, _) => Parsed::ProgramChange,
        MidiMessage::ChannelPressure(_, _) => Parsed::ChannelPressure,
        MidiMessage::PitchBend(_, _, _) => Parsed::PitchBend,
        MidiMessage::SysEx(_) => Parsed::SysEx,
    }
}

/// Whether a message can be classified: it is not empty, a dial message
/// carries its position, and the parser can take it.
pub open spec fn well_formed(data: Seq<u8>) -> bool {
    &&& data.len() >= 1
    &&& data.len() == 1 ==> data[0] != DIAL_STATUS
    &&& parse_defined(data)
}

/// The frame that a parsed message stands for. The dial's message is
/// two bytes long, too short for the parser, which calls it invalid: it is
/// told by its status byte, and the second byte is the dial's position.
pub open spec fn frame_of(m: Parsed, data: Seq<u8>) -> Frame {
    match m {
        Parsed::NoteOn { key } => Frame::NoteOn { key },
        Parsed::NoteOff { key } => Frame::NoteOff { key },
        Parsed::ControlChange { control, value } => Frame::ControlChange {
            controller: control,
            value,
        },
        Parsed::PitchBend => Frame::PitchBend,
        Parsed::Invalid => if data[0] == DIAL_STATUS {
            Frame::ProgramChange { value: data[1] }
        } else {
            Frame::Other
        },
        _ => Frame::Other,
    }
}

/// The frame that the bytes of a message stand for.
pub open spec fn classified(data: Seq<u8>) -> Frame {
    frame_of(parsed(data), data)
}

/// Tells whether `classify` takes the message.
pub fn is_well_formed(data: &[u8]) -> (ok: bool)
    ensures
        ok == well_formed(data@),
{
    let n: usize = data.len();
    if n == 0 {
        false
    } else if n == 1 {
        data[0] != DIAL_STATUS
    } else if n == 2 || data[0] != 0xF0 {
        true
    } else if data[1] == 0x7E || data[1] == 0x7F {
        n >= 5
    } else if data[1] == 0 {
        n >= 4
    } else {
        true
    }
}

/// The frame for a parsed message and the bytes it was parsed from.
pub fn frame_from(m: Parsed, data: &[u8]) -> (frame: Frame)
    requires
        data@.len() >= 1,
        m is Invalid && data@[0] == DIAL_STATUS ==> data@.len() >= 2,
    ensures
        frame == frame_of(m, data@),
{
    match m {
        Parsed::NoteOn { key } => Frame::NoteOn { key },
        Parsed::NoteOff { key } => Frame::NoteOff { key },
        Parsed::ControlChange { control, value } => Frame::ControlChange {
            controller: control,
            value,
        },
        Parsed::PitchBend => Frame::PitchBend,
        Parsed::Invalid => {
            if data[0] == DIAL_STATUS {
                Frame::ProgramChange { value: data[1] }
            } else {
                Frame::Other
            }
        },
        _ => Frame::Other,
    }
}

/// Classifies the bytes of one message.
pub fn classify(data: &[u8]) -> (frame: Frame)
    requires
        well_formed(data@),
    ensures
        frame == classified(data@),
{
    let m: Parsed = parse_message(data);
    frame_from(m, data)
}

/// What `classified` comes to, read off the first byte. A message of
/// three bytes or more is a note off from 0x80, a note on from 0x90, a
/// control change from 0xB0 and a pitch bend from 0xE0, on any of the
/// sixteen channels; a shorter one is the dial's if it starts with the
/// dial's status byte; all the rest is `Other`.
pub proof fn lemma_classified_by_status(data: Seq<u8>)
    requires
        data.len() >= 1,
        data.len() == 1 ==> data[0] != DIAL_STATUS,
    ensures
        classified(data) == if data.len() < 3 {
            if data[0] == DIAL_STATUS {
                Frame::ProgramChange { value: data[1] }
            } else {
                Frame::Other
            }
        } else if 0x80 <= data[0] <= 0x8F {
            Frame::NoteOff { key: data[1] }
        } else if 0x90 <= data[0] <= 0x9F {
            Frame::NoteOn { key: data[1] }
        } else if 0xB0 <= data[0] <= 0xBF {
            Frame::ControlChange { controller: data[1], value: data[2] }
        } else if 0xE0 <= data[0] <= 0xEF {
            Frame::PitchBend
        } else {
            Frame::Other
        },
{
    let status: u8 = data[0];
    assert(status < 0xF0 ==> (status & 0xF0 == 0x80 <==> 0x80 <= status <= 0x8F)) by (bit_vector);
    assert(status < 0xF0 ==> (status & 0xF0 == 0x90 <==> 0x90 <= status <= 0x9F)) by (bit_vector);
    assert(status < 0xF0 ==> (status & 0xF0 == 0xB0 <==> 0xB0 <= status <= 0xBF)) by (bit_vector);
    assert(status < 0xF0 ==> (status & 0xF0 == 0xE0 <==> 0xE0 <= status <= 0xEF)) by (bit_vector);
    assert(status < 0xF0 ==> status & 0xF0 != 0xF0) by (bit_vector);
    assert(status == 0xC0 ==> status & 0xF0 == 0xC0) by (bit_vector);
}

} // verus!
