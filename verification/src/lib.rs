//! Hover-activated edge panel: the lifecycle and event-routing core.
//!
//! Every display carries two thin hover sensors, one along its top edge and one
//! along its bottom edge, and at most one floating clock. The clock appears when
//! the pointer enters the bottom sensor and goes away a short while after the
//! pointer has left it.
//!
//! The crate decides what is shown and when. Putting surfaces on screen, running
//! timers and painting are left to the host: every entry point returns the list of
//! [`platform::Effect`]s that the host has to carry out, in order.
//!
//! * [`border`]: one hover sensor and its two-flag state machine.
//! * [`clock`]: the floating clock and its close timer.
//! * [`output`]: everything that lives on one display.
//! * [`panel`]: all displays, and the routing of events to them.
//! * [`platform`]: the plain values exchanged with the host.
//! * [`time`]: wall-clock readings and their textual form.

pub mod platform;
pub mod time;
pub mod border;
pub mod clock;
pub mod output;
pub mod panel;
