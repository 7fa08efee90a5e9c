//! Plugin-side logic: the window-count invariant checked at the end of
//! startup, the per-frame forwarding of queued host touches to the engine's
//! input vocabulary, and the return code of the per-frame update entry point.

use crate::errors::{slot_after_store, store_error, LastError};
use crate::input::{EmbeddedInputEvents, EmbeddedTouchEvent, TouchPhase, TouchPosition};
use vstd::prelude::*;

verus! {

/// Plugin that provides embedded window support.
///
/// The host application provides the window surface and forwards input
/// events; the plugin wires the queues up at build time and, once every
/// plugin has finished, checks that exactly one window entity exists.
#[derive(Debug, Default)]
pub struct EmbeddedPlugin;

/// Why the window-count invariant failed at the end of startup.
#[derive(Debug, Clone, Copy, PartialEq, Eq, Structural)]
pub enum WindowCountError {
    /// No window entity exists: the host never handed a surface over.
    NoWindows,
    /// More than one window entity exists; the count says how many.
    MultipleWindows { count: usize },
}

impl EmbeddedPlugin {
    /// The name the plugin registers under.
    pub fn name(&self) -> (name: &'static str)
        ensures
            name@ == "bevy_embedded::EmbeddedPlugin"@,
    {
        "bevy_embedded::EmbeddedPlugin"
    }

    /// Checks the invariant enforced when plugin startup finishes: exactly
    /// one window entity must exist. Zero or several windows is the fatal
    /// configuration error that halts startup.
    pub fn check_window_count(&self, window_count: usize) -> (result: Result<
        (),
        WindowCountError,
    >)
        ensures
            result is Ok <==> window_count == 1,
            window_count == 0 ==> result == Result::<(), WindowCountError>::Err(
                WindowCountError::NoWindows,
            ),
            window_count > 1 ==> result == Result::<(), WindowCountError>::Err(
                WindowCountError::MultipleWindows { count: window_count },
            ),
    {
        if window_count == 0 {
            Err(WindowCountError::NoWindows)
        } else if window_count > 1 {
            Err(WindowCountError::MultipleWindows { count: window_count })
        } else {
            Ok(())
        }
    }
}

/// What a window entity is created from once the host's surface is valid:
/// the physical resolution and the scale factor of the host's surface.
#[derive(Debug, Clone, Copy, PartialEq, Eq, Structural)]
pub struct WindowRequest {
    /// Physical width of the surface in pixels.
    pub width: u32,
    /// Physical height of the surface in pixels.
    pub height: u32,
    /// Bit pattern of the host's floating-point scale factor.
    pub scale_factor_bits: u32,
}

/// A touch event forwarded to the engine, aimed at the sole window entity.
#[derive(Debug, Clone, Copy, PartialEq, Eq, Structural)]
pub struct ForwardedTouch {
    /// Touch phase, in the same vocabulary the host used.
    pub phase: TouchPhase,
    /// Touch position, unchanged from the host event.
    pub position: TouchPosition,
    /// Bits of the window entity the touch is aimed at.
    pub window: u64,
    /// Touch identifier, unchanged from the host event.
    pub id: u64,
}

/// The engine-side event a queued host touch turns into.
pub open spec fn forward_touch(event: EmbeddedTouchEvent, window: u64) -> ForwardedTouch {
    ForwardedTouch { phase: event.phase, position: event.position, window, id: event.id }
}

/// Drains the queued host touches once per frame.
///
/// With a window present, every queued event is forwarded, one engine event
/// per queued touch, in arrival order, each aimed at that window and with
/// phase, position and identifier unchanged. Without a window nothing is
/// forwarded. The queue is cleared either way.
pub fn process_embedded_input(events: &mut EmbeddedInputEvents, window: Option<u64>) -> (forwarded:
    Vec<ForwardedTouch>)
    ensures
        final(events).touch_events@.len() == 0,
        match window {
            Some(entity) => forwarded@.len() == old(events).touch_events@.len() && (forall|i: int|
                0 <= i < forwarded@.len() ==> #[trigger] forwarded@[i] == forward_touch(
                    old(events).touch_events@[i],
                    entity,
                )),
            None => forwarded@.len() == 0,
        },
{
    let mut forwarded: Vec<ForwardedTouch> = Vec::new();
    if let Some(entity) = window {
        let mut i: usize = 0;
        while i < events.touch_events.len()
            invariant
                i <= events.touch_events.len(),
                events.touch_events@ == old(events).touch_events@,
                forwarded@.len() == i,
                forall|j: int|
                    0 <= j < i ==> #[trigger] forwarded@[j] == forward_touch(
                        old(events).touch_events@[j],
                        entity,
                    ),
            decreases events.touch_events.len() - i,
        {
            let event = events.touch_events[i];
            forwarded.push(
                ForwardedTouch {
                    phase: event.phase,
                    position: event.position,
                    window: entity,
                    id: event.id,
                },
            );
            i += 1;
        }
    }
    events.clear();
    forwarded
}

/// How a frame update ended, as the engine reports it.
///
/// An error status carries the engine's nonzero exit code.
#[derive(Debug, Clone, Copy, PartialEq, Eq, Structural)]
pub enum AppExitStatus {
    /// The engine asked to exit without an error.
    Success,
    /// The engine asked to exit with the given error code.
    Error { code: u8 },
}

/// Return code of the per-frame update entry point.
///
/// A zero return code means the frame passed with no pending error. An
/// error exit returns the engine's own code, storing a generic message in
/// the mailbox first if it was empty; an error captured by the error
/// handler without an exit request returns 1. The stored message stays in
/// the mailbox for the host to poll afterwards.
pub fn update_return_code(slot: &mut LastError, exit: Option<AppExitStatus>) -> (code: u8)
    requires
        exit matches Some(AppExitStatus::Error { code: exit_code }) ==> exit_code != 0,
    ensures
        code == 0 <==> (old(slot)@ is None && !(exit matches Some(AppExitStatus::Error { .. }))),
        exit matches Some(AppExitStatus::Error { code: exit_code }) ==> code == exit_code && (
        old(slot)@ is None ==> final(slot)@ == slot_after_store(
            "Bevy app exited with an error"@,
        )) && (old(slot)@ is Some ==> final(slot)@ == old(slot)@),
        !(exit matches Some(AppExitStatus::Error { .. })) ==> final(slot)@ == old(slot)@ && (old(
            slot,
        )@ is Some ==> code == 1),
{
    let pending = slot.has_message();
    match exit {
        Some(AppExitStatus::Error { code }) => {
            if !pending {
                store_error(slot, "Bevy app exited with an error".to_owned());
            }
            code
        },
        _ => {
            if pending {
                1
            } else {
                0
            }
        },
    }
}

} // verus!
