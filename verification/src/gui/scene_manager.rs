//! Scenes and the events that a scene manager hands them.

use vstd::prelude::*;

verus! {

/// A scene.
pub trait Scene {
    fn on_enter();

    fn on_event(event: Event) -> bool;

    fn on_exit();
}

/// A set of [`Scene`]s, each known to the firmware by its number.
pub trait Scenes: Copy {
    fn id(self) -> u32;
}

/// A scene manager event.
#[derive(Clone, Copy, Debug, PartialEq, Eq, Structural)]
pub enum Event {
    Custom(u32),
    Back,
    Tick,
}

/// The firmware's event type of a custom event.
pub const EVENT_TYPE_CUSTOM: u8 = 0;
/// The firmware's event type of a back event.
pub const EVENT_TYPE_BACK: u8 = 1;
/// The firmware's event type of a tick event.
pub const EVENT_TYPE_TICK: u8 = 2;

impl Event {
    /// The event that the firmware's event type and payload stand for.
    pub open spec fn spec_from_raw(event_type: u8, event: u32) -> Event {
        if event_type == EVENT_TYPE_CUSTOM {
            Event::Custom(event)
        } else if event_type == EVENT_TYPE_BACK {
            Event::Back
        } else {
            Event::Tick
        }
    }

    /// Reads the firmware's event type and payload. The firmware knows no other event
    /// type than the three above.
    pub fn from_raw(event_type: u8, event: u32) -> (r: Event)
        requires
            event_type <= EVENT_TYPE_TICK,
        ensures
            r == Event::spec_from_raw(event_type, event),
    {
        match event_type {
            EVENT_TYPE_CUSTOM => Event::Custom(event),
            EVENT_TYPE_BACK => Event::Back,
            _ => Event::Tick,
        }
    }
}

} // verus!
