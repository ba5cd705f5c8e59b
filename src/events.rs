//! Event frames: 32 bytes each, classified by their first byte. Key and button
//! events share one layout: the detail code at byte 1 and the event-relative
//! coordinates at bytes 24 and 26.
use vstd::prelude::*;
use crate::wire::{le_u16_at, read_le_u16};

verus! {

/// Size of every event frame.
pub const EVENT_LEN: usize = 32;
pub const EVENT_KEY_RELEASE: u8 = 0x3;
pub const EVENT_BUTTON_RELEASE: u8 = 0x5;
pub const EVENT_EXPOSURE: u8 = 0xc;
/// Key code of the Enter key.
pub const KEYCODE_ENTER: u8 = 36;
/// Offset of the event-relative x coordinate; y follows it.
pub const EVENT_X_OFFSET: usize = 24;

/// What the receive loop does with one frame.
#[derive(Clone, Copy, Debug, PartialEq, Eq, Structural)]
pub enum EventAction {
    /// Draw the board again.
    Redraw,
    /// Start a new game, then draw the board.
    Reset,
    /// Hand the click to the board, then draw it.
    Click { x: u16, y: u16, button: u8 },
    /// Nothing to do.
    Ignore,
}

/// The action a frame calls for.
pub open spec fn event_action(frame: Seq<u8>) -> EventAction {
    if frame[0] == EVENT_EXPOSURE {
        EventAction::Redraw
    } else if frame[0] == EVENT_KEY_RELEASE {
        if frame[1] == KEYCODE_ENTER {
            EventAction::Reset
        } else {
            EventAction::Ignore
        }
    } else if frame[0] == EVENT_BUTTON_RELEASE {
        EventAction::Click {
            x: le_u16_at(frame, EVENT_X_OFFSET as int) as u16,
            y: le_u16_at(frame, EVENT_X_OFFSET + 2) as u16,
            button: frame[1],
        }
    } else {
        EventAction::Ignore
    }
}

/// Classifies one event frame.
pub fn decode_event(frame: &[u8]) -> (r: EventAction)
    requires
        frame@.len() == EVENT_LEN,
    ensures
        r == event_action(frame@),
{
    let code = frame[0];
    if code == EVENT_EXPOSURE {
        EventAction::Redraw
    } else if code == EVENT_KEY_RELEASE {
        if frame[1] == KEYCODE_ENTER {
            EventAction::Reset
        } else {
            EventAction::Ignore
        }
    } else if code == EVENT_BUTTON_RELEASE {
        EventAction::Click {
            x: read_le_u16(frame, EVENT_X_OFFSET),
            y: read_le_u16(frame, EVENT_X_OFFSET + 2),
            button: frame[1],
        }
    } else {
        EventAction::Ignore
    }
}

} // verus!
