//! Embedded widget support for a host-driven game engine.
//!
//! The host application owns the render surface and the UI thread; this
//! library holds the logic that sits between the two: the touch-event
//! queue that host callbacks fill and the engine drains, the binary
//! message channel connecting host and engine, the single-slot error
//! mailbox behind the get-last-error entry point, the window-count
//! invariant enforced at the end of plugin startup, and the little-endian
//! word codec used for the fixed-size messages the two sides exchange.

pub mod android;
pub mod channel;
pub mod codec;
pub mod errors;
pub mod input;
pub mod ios;
pub mod plugin;
