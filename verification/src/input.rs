//! Touch input forwarded from the host application.
//!
//! The host delivers each touch as a phase code, a position and a touch
//! identifier. Valid phase codes are mapped to [`TouchPhase`] and the event
//! is queued; any other code is dropped without queuing anything. The queue
//! is drained once per engine frame.

use vstd::prelude::*;

verus! {

/// Phase of a touch input event, as the host reports it.
///
/// The wire encoding used by the host callbacks is the code accepted by
/// [`TouchPhase::from_u8`]: 0 starts a touch, 1 moves it, 2 ends it and
/// 3 cancels it.
#[derive(Debug, Clone, Copy, PartialEq, Eq, Structural)]
pub enum TouchPhase {
    /// Touch began.
    Started,
    /// Touch moved.
    Moved,
    /// Touch ended.
    Ended,
    /// Touch cancelled.
    Cancelled,
}

/// The phase a raw host code stands for, or `None` for an unknown code.
pub open spec fn phase_of_code(value: u8) -> Option<TouchPhase> {
    if value == 0 {
        Some(TouchPhase::Started)
    } else if value == 1 {
        Some(TouchPhase::Moved)
    } else if value == 2 {
        Some(TouchPhase::Ended)
    } else if value == 3 {
        Some(TouchPhase::Cancelled)
    } else {
        None
    }
}

impl TouchPhase {
    /// Create a `TouchPhase` from the host's phase code.
    pub fn from_u8(value: u8) -> (phase: Option<Self>)
        ensures
            phase == phase_of_code(value),
    {
        match value {
            0 => Some(TouchPhase::Started),
            1 => Some(TouchPhase::Moved),
            2 => Some(TouchPhase::Ended),
            3 => Some(TouchPhase::Cancelled),
            _ => None,
        }
    }
}

/// A touch position in logical pixels.
///
/// The host hands coordinates over as 32-bit floating-point values; this
/// library stores their raw bit patterns and passes them through unchanged,
/// so equality here is equality of the host's coordinate values.
#[derive(Debug, Clone, Copy, PartialEq, Eq, Structural)]
pub struct TouchPosition {
    /// Bit pattern of the horizontal coordinate.
    pub x_bits: u32,
    /// Bit pattern of the vertical coordinate.
    pub y_bits: u32,
}

/// A touch input event from the host application.
#[derive(Debug, Clone, Copy, PartialEq, Eq, Structural)]
pub struct EmbeddedTouchEvent {
    /// Touch phase.
    pub phase: TouchPhase,
    /// Touch position in logical pixels.
    pub position: TouchPosition,
    /// Unique identifier for this touch.
    pub id: u64,
}

/// Queued input events from the host application, drained once per frame.
#[derive(Debug, Default)]
pub struct EmbeddedInputEvents {
    /// Queued touch events, oldest first.
    pub touch_events: Vec<EmbeddedTouchEvent>,
}

impl EmbeddedInputEvents {
    /// Creates an empty queue.
    pub fn new() -> (events: Self)
        ensures
            events.touch_events@ == Seq::<EmbeddedTouchEvent>::empty(),
    {
        EmbeddedInputEvents { touch_events: Vec::new() }
    }

    /// Adds a touch event to the back of the queue.
    pub fn add_touch_event(&mut self, event: EmbeddedTouchEvent)
        ensures
            final(self).touch_events@ == old(self).touch_events@.push(event),
    {
        self.touch_events.push(event);
    }

    /// Clears all queued events (called after processing).
    pub fn clear(&mut self)
        ensures
            final(self).touch_events@ == Seq::<EmbeddedTouchEvent>::empty(),
    {
        self.touch_events.clear();
    }

    /// Bridges one raw host touch into the queue.
    ///
    /// A valid phase code queues one event carrying the mapped phase and the
    /// position and identifier unchanged, and returns `true`; any other code
    /// leaves the queue as it was and returns `false`.
    pub fn push_host_touch(&mut self, phase_code: u8, position: TouchPosition, id: u64) -> (queued:
        bool)
        ensures
            queued == (phase_of_code(phase_code) is Some),
            phase_of_code(phase_code) matches Some(phase) ==> final(self).touch_events@ == old(
                self,
            ).touch_events@.push(
                EmbeddedTouchEvent { phase, position, id },
            ),
            phase_of_code(phase_code) is None ==> final(self).touch_events@ == old(
                self,
            ).touch_events@,
    {
        match TouchPhase::from_u8(phase_code) {
            Some(phase) => {
                self.add_touch_event(EmbeddedTouchEvent { phase, position, id });
                true
            },
            None => false,
        }
    }
}

} // verus!
