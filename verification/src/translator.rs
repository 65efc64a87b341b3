//! The translator: one frame in, at most one event out.

use crate::frame::{classified, classify, well_formed, Frame};
use crate::types::{Button, ControllerEvent, DialMovement};
use vstd::prelude::*;

verus! {

/// Number of the modulation wheel, which the keyboard uses as its
/// modifier button.
pub const MOD_CONTROLLER: u8 = 1;

/// What one device's translator remembers between frames.
#[derive(Debug, Clone, Copy, PartialEq, Eq, Structural)]
pub struct Translator {
    /// Position of the dial when it last moved.
    pub last_program: u8,
    /// Whether a first position of the dial has been taken.
    pub calibrated: bool,
}

/// An event with the time its message arrived, in microseconds.
#[derive(Debug, Clone, Copy, PartialEq, Eq, Structural)]
pub struct TimedEvent {
    pub event: ControllerEvent,
    pub timestamp_us: u64,
}

/// The way the dial went from `prev` to `value`. The dial reports where it
/// stands, from 0 to 127, and stays at the end of its range when turned
/// further: at 0 it went left and at 127 right, whatever came before.
/// Where it stands as before, it did not move.
pub open spec fn dial_direction(prev: u8, value: u8) -> Option<DialMovement> {
    if value == 0 || value < prev {
        Some(DialMovement::Left)
    } else if value == 127 || value > prev {
        Some(DialMovement::Right)
    } else {
        None
    }
}

/// Whether a frame is one that the controller is not known to send: a
/// control change of another controller than the modifier button, or a
/// message of no known kind.
pub open spec fn unexpected(frame: Frame) -> bool {
    match frame {
        Frame::ControlChange { controller, value } => controller != MOD_CONTROLLER,
        Frame::Other => true,
        _ => false,
    }
}

impl Translator {
    /// The state before a first position of the dial is taken: the
    /// position is kept at 0 until then.
    pub open spec fn wf(self) -> bool {
        !self.calibrated ==> self.last_program == 0
    }

    /// The event that a frame gives in this state.
    pub open spec fn emitted(self, frame: Frame) -> Option<ControllerEvent> {
        match frame {
            Frame::NoteOn { key } => Some(ControllerEvent::ButtonPress(Button::pitch_class(key))),
            Frame::NoteOff { key } => Some(
                ControllerEvent::ButtonRelease(Button::pitch_class(key)),
            ),
            Frame::ControlChange { controller, value } => if controller == MOD_CONTROLLER
                && value == 0 {
                Some(ControllerEvent::ButtonRelease(Button::ButtonMod))
            } else if controller == MOD_CONTROLLER && value == 127 {
                Some(ControllerEvent::ButtonPress(Button::ButtonMod))
            } else {
                None
            },
            Frame::ProgramChange { value } => match dial_direction(self.last_program, value) {
                Some(direction) => if self.calibrated {
                    Some(ControllerEvent::DialTurn(direction))
                } else {
                    None
                },
                None => None,
            },
            Frame::PitchBend => None,
            Frame::Other => None,
        }
    }

    /// The state after a frame. Only a position of the dial that tells a
    /// direction changes it: the position is kept, and the first one
    /// calibrates.
    pub open spec fn after(self, frame: Frame) -> Translator {
        match frame {
            Frame::ProgramChange { value } => if dial_direction(self.last_program, value)
                is Some {
                Translator { last_program: value, calibrated: true }
            } else {
                self
            },
            _ => self,
        }
    }

    /// A translator for a device that has sent nothing yet.
    pub fn new() -> (t: Translator)
        ensures
            t.last_program == 0,
            !t.calibrated,
            t.wf(),
    {
        Translator { last_program: 0, calibrated: false }
    }

    /// The way the dial went, given where it now stands.
    pub fn direction(&self, value: u8) -> (d: Option<DialMovement>)
        ensures
            d == dial_direction(self.last_program, value),
    {
        if value == 0 || value < self.last_program {
            Some(DialMovement::Left)
        } else if value == 127 || value > self.last_program {
            Some(DialMovement::Right)
        } else {
            None
        }
    }

    /// Takes one frame and gives the event it stands for, if any.
    pub fn process(&mut self, frame: Frame) -> (event: Option<ControllerEvent>)
        ensures
            event == old(self).emitted(frame),
            *final(self) == old(self).after(frame),
            old(self).wf() ==> final(self).wf(),
    {
        match frame {
            Frame::NoteOn { key } => Some(ControllerEvent::ButtonPress(Button::from_int(key))),
            Frame::NoteOff { key } => Some(ControllerEvent::ButtonRelease(Button::from_int(key))),
            Frame::ControlChange { controller, value } => {
                if controller != MOD_CONTROLLER {
                    None
                } else if value == 0 {
                    Some(ControllerEvent::ButtonRelease(Button::ButtonMod))
                } else if value == 127 {
                    Some(ControllerEvent::ButtonPress(Button::ButtonMod))
                } else {
                    None
                }
            },
            Frame::ProgramChange { value } => {
                match self.direction(value) {
                    Some(direction) => {
                        self.last_program = value;
                        if self.calibrated {
                            Some(ControllerEvent::DialTurn(direction))
                        } else {
                            self.calibrated = true;
                            None
                        }
                    },
                    None => None,
                }
            },
            Frame::PitchBend => None,
            Frame::Other => None,
        }
    }

    /// Takes the bytes of one message with the time it arrived, and gives
    /// the event it stands for under that time.
    pub fn on_message(&mut self, timestamp: u64, data: &[u8]) -> (out: Option<TimedEvent>)
        requires
            well_formed(data@),
        ensures
            out == stamped(old(self).emitted(classified(data@)), timestamp),
            *final(self) == old(self).after(classified(data@)),
            old(self).wf() ==> final(self).wf(),
    {
        let frame: Frame = classify(data);
        match self.process(frame) {
            Some(event) => Some(TimedEvent { event, timestamp_us: timestamp }),
            None => None,
        }
    }
}

/// An event, if there is one, under the time of its message.
pub open spec fn stamped(event: Option<ControllerEvent>, timestamp: u64) -> Option<TimedEvent> {
    match event {
        Some(e) => Some(TimedEvent { event: e, timestamp_us: timestamp }),
        None => None,
    }
}

/// Tells whether a frame should be noted as unexpected. Such a frame gives
/// no event and leaves the translator as it was.
pub fn is_unexpected(frame: &Frame) -> (b: bool)
    ensures
        b == unexpected(*frame),
{
    match frame {
        Frame::ControlChange { controller, value } => *controller != MOD_CONTROLLER,
        Frame::Other => true,
        _ => false,
    }
}

/// The first position of the dial that a translator takes gives no event
/// and calibrates it, wherever the dial stands.
pub proof fn lemma_first_position_calibrates(t: Translator, value: u8)
    requires
        t.wf(),
        !t.calibrated,
    ensures
        t.emitted(Frame::ProgramChange { value }) is None,
        t.after(Frame::ProgramChange { value }).calibrated,
        t.after(Frame::ProgramChange { value }).last_program == value,
{
}

/// Once calibrated, a translator stays so, and every state reached from a
/// new translator keeps the dial's position at 0 until it is calibrated.
pub proof fn lemma_after_keeps_calibration(t: Translator, frame: Frame)
    ensures
        t.calibrated ==> t.after(frame).calibrated,
        t.wf() ==> t.after(frame).wf(),
{
}

/// Only a position of the dial can change the state, and an unexpected
/// frame gives no event.
pub proof fn lemma_other_frames_keep_state(t: Translator, frame: Frame)
    ensures
        !(frame is ProgramChange) ==> t.after(frame) == t,
        unexpected(frame) ==> t.emitted(frame) is None && t.after(frame) == t,
{
}

/// A calibrated translator gives a dial turn exactly when the dial's
/// position tells a direction, and then remembers the position. The
/// position tells none only where the dial stands as before, away from
/// both ends of its range.
pub proof fn lemma_dial_turn(t: Translator, value: u8)
    requires
        t.calibrated,
    ensures
        t.emitted(Frame::ProgramChange { value }) == match dial_direction(t.last_program, value) {
            Some(d) => Some(ControllerEvent::DialTurn(d)),
            None => None,
        },
        dial_direction(t.last_program, value) is None <==> value == t.last_program && value != 0
            && value != 127,
        dial_direction(t.last_program, value) is Some ==> t.after(
            Frame::ProgramChange { value },
        ).last_program == value,
{
}

} // verus!
