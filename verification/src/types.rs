//! The events a controller can produce, and their one-byte wire form.

use vstd::prelude::*;

verus! {

/// A key of the controller: one of the twelve pitch classes, whatever the
/// octave, or the modifier button.
#[derive(Debug, Clone, Copy, PartialEq, Eq, Structural)]
pub enum Button {
    ButtonC,
    ButtonCS,
    ButtonD,
    ButtonDS,
    ButtonE,
    ButtonF,
    ButtonFS,
    ButtonG,
    ButtonGS,
    ButtonA,
    ButtonAS,
    ButtonB,
    ButtonMod,
}

impl Button {
    /// The number of this button: the pitch classes count up from C at 0
    /// to B at 11, and the modifier button is 12.
    pub open spec fn code(self) -> u8 {
        match self {
            Button::ButtonC => 0,
            Button::ButtonCS => 1,
            Button::ButtonD => 2,
            Button::ButtonDS => 3,
            Button::ButtonE => 4,
            Button::ButtonF => 5,
            Button::ButtonFS => 6,
            Button::ButtonG => 7,
            Button::ButtonGS => 8,
            Button::ButtonA => 9,
            Button::ButtonAS => 10,
            Button::ButtonB => 11,
            Button::ButtonMod => 12,
        }
    }

    /// The button whose number is `code`, for the thirteen numbers in use.
    pub open spec fn with_code(code: int) -> Option<Button> {
        if code == 0 {
            Some(Button::ButtonC)
        } else if code == 1 {
            Some(Button::ButtonCS)
        } else if code == 2 {
            Some(Button::ButtonD)
        } else if code == 3 {
            Some(Button::ButtonDS)
        } else if code == 4 {
            Some(Button::ButtonE)
        } else if code == 5 {
            Some(Button::ButtonF)
        } else if code == 6 {
            Some(Button::ButtonFS)
        } else if code == 7 {
            Some(Button::ButtonG)
        } else if code == 8 {
            Some(Button::ButtonGS)
        } else if code == 9 {
            Some(Button::ButtonA)
        } else if code == 10 {
            Some(Button::ButtonAS)
        } else if code == 11 {
            Some(Button::ButtonB)
        } else if code == 12 {
            Some(Button::ButtonMod)
        } else {
            None
        }
    }

    /// The pitch class that a key number of the keyboard falls on: the
    /// octave is dropped.
    pub open spec fn pitch_class(key: u8) -> Button {
        Button::with_code(key as int % 12).unwrap()
    }

    pub fn to_key(&self) -> (k: u8)
        ensures
            k == self.code(),
            k <= 12,
    {
        match self {
            Button::ButtonC => 0,
            Button::ButtonCS => 1,
            Button::ButtonD => 2,
            Button::ButtonDS => 3,
            Button::ButtonE => 4,
            Button::ButtonF => 5,
            Button::ButtonFS => 6,
            Button::ButtonG => 7,
            Button::ButtonGS => 8,
            Button::ButtonA => 9,
            Button::ButtonAS => 10,
            Button::ButtonB => 11,
            Button::ButtonMod => 12,
        }
    }

    /// The pitch class of a key number. Every byte is accepted, and the
    /// modifier button never comes out.
    pub fn from_int(key: u8) -> (b: Button)
        ensures
            b == Button::pitch_class(key),
            b.code() == key % 12,
            b != Button::ButtonMod,
    {
        let nk: u8 = key % 12;
        match nk {
            0 => Button::ButtonC,
            1 => Button::ButtonCS,
            2 => Button::ButtonD,
            3 => Button::ButtonDS,
            4 => Button::ButtonE,
            5 => Button::ButtonF,
            6 => Button::ButtonFS,
            7 => Button::ButtonG,
            8 => Button::ButtonGS,
            9 => Button::ButtonA,
            10 => Button::ButtonAS,
            _ => Button::ButtonB,
        }
    }

    /// The button with the given number: the inverse of `to_key`. A number
    /// above 12 names no button.
    pub fn from_key(code: u8) -> (b: Option<Button>)
        ensures
            b == Button::with_code(code as int),
            b is Some <==> code <= 12,
            b is Some ==> b.unwrap().code() == code,
    {
        match code {
            0 => Some(Button::ButtonC),
            1 => Some(Button::ButtonCS),
            2 => Some(Button::ButtonD),
            3 => Some(Button::ButtonDS),
            4 => Some(Button::ButtonE),
            5 => Some(Button::ButtonF),
            6 => Some(Button::ButtonFS),
            7 => Some(Button::ButtonG),
            8 => Some(Button::ButtonGS),
            9 => Some(Button::ButtonA),
            10 => Some(Button::ButtonAS),
            11 => Some(Button::ButtonB),
            12 => Some(Button::ButtonMod),
            _ => None,
        }
    }
}

/// The way the dial was turned.
#[derive(Debug, Clone, Copy, PartialEq, Eq, Structural)]
pub enum DialMovement {
    Left,
    Right,
}

/// What the controller reports: a button went down, a button came up, or
/// the dial moved one step.
#[derive(Debug, Clone, Copy, PartialEq, Eq, Structural)]
pub enum ControllerEvent {
    ButtonPress(Button),
    ButtonRelease(Button),
    DialTurn(DialMovement),
}

/// Tag of a button press, in the two top bits of the byte.
pub const BUTTON_PRESS: u8 = 0b01000000;

/// Tag of a button release.
pub const BUTTON_RELEASE: u8 = 0b11000000;

/// Tag of a dial turn.
pub const DIAL_MOVEMENT: u8 = 0b10000000;

impl ControllerEvent {
    /// The byte that stands for this event on the wire. The two top bits
    /// tell the kind of event; the low bits hold the button's number, or
    /// for the dial a single bit that is set for a turn to the left.
    pub open spec fn wire_byte(self) -> u8 {
        match self {
            ControllerEvent::ButtonPress(b) => (64 + b.code()) as u8,
            ControllerEvent::ButtonRelease(b) => (192 + b.code()) as u8,
            ControllerEvent::DialTurn(DialMovement::Left) => 129,
            ControllerEvent::DialTurn(DialMovement::Right) => 128,
        }
    }

    /// The event that a byte of the wire stands for. Only the bytes that
    /// `wire_byte` produces stand for one: a button number above 12, a
    /// stray bit beside the dial's direction, and the unused tag are all
    /// malformed.
    pub open spec fn of_wire_byte(byte: u8) -> Option<ControllerEvent> {
        let tag = byte as int / 64;
        let low = byte as int % 64;
        if tag == 1 && low <= 12 {
            Some(ControllerEvent::ButtonPress(Button::with_code(low).unwrap()))
        } else if tag == 3 && low <= 12 {
            Some(ControllerEvent::ButtonRelease(Button::with_code(low).unwrap()))
        } else if tag == 2 && low == 0 {
            Some(ControllerEvent::DialTurn(DialMovement::Right))
        } else if tag == 2 && low == 1 {
            Some(ControllerEvent::DialTurn(DialMovement::Left))
        } else {
            None
        }
    }

    /// Packs the event into one byte.
    pub fn to_bytes(&self) -> (res: u8)
        ensures
            res == self.wire_byte(),
    {
        match self {
            ControllerEvent::ButtonPress(button) => {
                let key: u8 = button.to_key();
                assert(BUTTON_PRESS | key == 64 + key) by (bit_vector)
                    requires
                        key <= 12,
                ;
                BUTTON_PRESS | key
            },
            ControllerEvent::ButtonRelease(button) => {
                let key: u8 = button.to_key();
                assert(BUTTON_RELEASE | key == 192 + key) by (bit_vector)
                    requires
                        key <= 12,
                ;
                BUTTON_RELEASE | key
            },
            ControllerEvent::DialTurn(movement) => {
                assert(DIAL_MOVEMENT | 1u8 == 129) by (bit_vector);
                match movement {
                    DialMovement::Left => DIAL_MOVEMENT | 1,
                    DialMovement::Right => DIAL_MOVEMENT,
                }
            },
        }
    }

    /// Reads an event back from its byte, and refuses a byte that no event
    /// is packed into.
    pub fn from_byte(byte: u8) -> (res: Option<ControllerEvent>)
        ensures
            res == ControllerEvent::of_wire_byte(byte),
    {
        let tag: u8 = byte / 64;
        let low: u8 = byte % 64;
        if tag == 1 {
            match Button::from_key(low) {
                Some(button) => Some(ControllerEvent::ButtonPress(button)),
                None => None,
            }
        } else if tag == 3 {
            match Button::from_key(low) {
                Some(button) => Some(ControllerEvent::ButtonRelease(button)),
                None => None,
            }
        } else if tag == 2 && low == 0 {
            Some(ControllerEvent::DialTurn(DialMovement::Right))
        } else if tag == 2 && low == 1 {
            Some(ControllerEvent::DialTurn(DialMovement::Left))
        } else {
            None
        }
    }
}

impl Button {
    /// The name of the button as musicians write it.
    pub open spec fn label(self) -> Seq<char> {
        match self {
            Button::ButtonC => "C"@,
            Button::ButtonCS => "C#"@,
            Button::ButtonD => "D"@,
            Button::ButtonDS => "D#"@,
            Button::ButtonE => "E"@,
            Button::ButtonF => "F"@,
            Button::ButtonFS => "F#"@,
            Button::ButtonG => "G"@,
            Button::ButtonGS => "G#"@,
            Button::ButtonA => "A"@,
            Button::ButtonAS => "A#"@,
            Button::ButtonB => "B"@,
            Button::ButtonMod => "MOD"@,
        }
    }

    /// The name of the button, for a person to read.
    pub fn name(&self) -> (s: &'static str)
        ensures
            s@ == self.label(),
    {
        match self {
            Button::ButtonC => "C",
            Button::ButtonCS => "C#",
            Button::ButtonD => "D",
            Button::ButtonDS => "D#",
            Button::ButtonE => "E",
            Button::ButtonF => "F",
            Button::ButtonFS => "F#",
            Button::ButtonG => "G",
            Button::ButtonGS => "G#",
            Button::ButtonA => "A",
            Button::ButtonAS => "A#",
            Button::ButtonB => "B",
            Button::ButtonMod => "MOD",
        }
    }
}

impl DialMovement {
    /// The name of the direction.
    pub open spec fn label(self) -> Seq<char> {
        match self {
            DialMovement::Left => "Left"@,
            DialMovement::Right => "Right"@,
        }
    }

    /// The name of the direction, for a person to read.
    pub fn name(&self) -> (s: &'static str)
        ensures
            s@ == self.label(),
    {
        match self {
            DialMovement::Left => "Left",
            DialMovement::Right => "Right",
        }
    }
}

impl ControllerEvent {
    /// The event written out: its kind, and in brackets the button or the
    /// direction.
    pub open spec fn label(self) -> Seq<char> {
        match self {
            ControllerEvent::ButtonPress(b) => "ButtonPress("@ + b.label() + ")"@,
            ControllerEvent::ButtonRelease(b) => "ButtonRelease("@ + b.label() + ")"@,
            ControllerEvent::DialTurn(d) => "DialTurn("@ + d.label() + ")"@,
        }
    }

    /// The event written out, for a person to read.
    pub fn to_text(&self) -> (s: String)
        ensures
            s@ == self.label(),
    {
        let mut s: String = match self {
            ControllerEvent::ButtonPress(_) => String::from_str("ButtonPress("),
            ControllerEvent::ButtonRelease(_) => String::from_str("ButtonRelease("),
            ControllerEvent::DialTurn(_) => String::from_str("DialTurn("),
        };
        match self {
            ControllerEvent::ButtonPress(b) => s.append(b.name()),
            ControllerEvent::ButtonRelease(b) => s.append(b.name()),
            ControllerEvent::DialTurn(d) => s.append(d.name()),
        }
        s.append(")");
        s
    }
}

/// A key number and the same key number with the octave dropped name the
/// same button, and that button is never the modifier button.
pub proof fn lemma_from_int_drops_octave(key: u8)
    ensures
        Button::pitch_class(key) == Button::pitch_class((key % 12) as u8),
        Button::pitch_class(key) != Button::ButtonMod,
        Button::pitch_class(key).code() == key % 12,
{
}

/// Every button is found again from its number.
pub proof fn lemma_button_code_round_trip(b: Button)
    ensures
        b.code() <= 12,
        Button::with_code(b.code() as int) == Some(b),
{
}

/// Every number from 0 to 12 is the number of the button it names, so the
/// numbers and the buttons match one to one.
pub proof fn lemma_code_button_round_trip(code: u8)
    requires
        code <= 12,
    ensures
        Button::with_code(code as int) is Some,
        Button::with_code(code as int).unwrap().code() == code,
{
}

/// A pitch class is found again from its number by way of the key
/// numbers. The modifier button is not: its number, taken as a key
/// number, falls on C.
pub proof fn lemma_pitch_class_round_trip(b: Button)
    requires
        b != Button::ButtonMod,
    ensures
        Button::pitch_class(b.code()) == b,
{
}

/// Reading back the byte of an event gives that event.
pub proof fn lemma_wire_round_trip(e: ControllerEvent)
    ensures
        ControllerEvent::of_wire_byte(e.wire_byte()) == Some(e),
{
}

/// A byte that stands for an event is the byte of that event, so no two
/// bytes are read as the same event.
pub proof fn lemma_wire_byte_canonical(byte: u8)
    requires
        ControllerEvent::of_wire_byte(byte) is Some,
    ensures
        ControllerEvent::of_wire_byte(byte).unwrap().wire_byte() == byte,
{
}

/// The layout of the byte: the kind of event in bits 7 and 6, bit 5 clear,
/// and the button's number or the dial's direction in the five low bits.
pub proof fn lemma_wire_layout(e: ControllerEvent)
    ensures
        e.wire_byte() >> 6 == match e {
            ControllerEvent::ButtonPress(_) => 1u8,
            ControllerEvent::ButtonRelease(_) => 3u8,
            ControllerEvent::DialTurn(_) => 2u8,
        },
        e.wire_byte() & 0b0010_0000 == 0,
        e.wire_byte() & 0b0001_1111 == match e {
            ControllerEvent::ButtonPress(b) => b.code(),
            ControllerEvent::ButtonRelease(b) => b.code(),
            ControllerEvent::DialTurn(DialMovement::Left) => 1u8,
            ControllerEvent::DialTurn(DialMovement::Right) => 0u8,
        },
{
    let w: u8 = e.wire_byte();
    assert(64 <= w <= 76 ==> w >> 6 == 1 && w & 0b0010_0000 == 0 && w & 0b0001_1111 == w - 64)
        by (bit_vector);
    assert(192 <= w <= 204 ==> w >> 6 == 3 && w & 0b0010_0000 == 0 && w & 0b0001_1111 == w
        - 192) by (bit_vector);
    assert(128 <= w <= 129 ==> w >> 6 == 2 && w & 0b0010_0000 == 0 && w & 0b0001_1111 == w
        - 128) by (bit_vector);
}

} // verus!
