//! Holding events back until the player arms the controller.

use crate::types::{Button, ControllerEvent};
use vstd::prelude::*;

verus! {

/// Stands between the translator and the wire. It starts closed and
/// opens when the modifier button is released for the first time.
#[derive(Debug, Clone, Copy, PartialEq, Eq, Structural)]
pub struct Relay {
    /// Whether events go through.
    pub armed: bool,
}

impl Relay {
    /// Whether an event is the one that opens the relay.
    pub open spec fn arms(event: ControllerEvent) -> bool {
        event == ControllerEvent::ButtonRelease(Button::ButtonMod)
    }

    /// A closed relay.
    pub fn new() -> (r: Relay)
        ensures
            !r.armed,
    {
        Relay { armed: false }
    }

    /// Takes one event and gives the byte to send, if any. While the
    /// relay is closed nothing is sent, not even the event that opens it;
    /// once open it stays open and every event is sent as its byte.
    pub fn forward(&mut self, event: &ControllerEvent) -> (byte: Option<u8>)
        ensures
            old(self).armed ==> byte == Some(event.wire_byte()) && final(self).armed,
            !old(self).armed ==> byte is None && final(self).armed == Relay::arms(*event),
    {
        if self.armed {
            Some(event.to_bytes())
        } else {
            match event {
                ControllerEvent::ButtonRelease(Button::ButtonMod) => {
                    self.armed = true;
                },
                _ => {},
            }
            None
        }
    }
}

} // verus!
