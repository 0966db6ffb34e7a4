//! A system-tray manager for tiling window managers, together with the
//! window-manager utility layer of the surrounding status bar.
//!
//! The tray core implements the freedesktop System Tray protocol as a
//! state machine over decoded X events.  All protocol requests the manager
//! wants performed are recorded as plain data (`request::XRequest`); an
//! unverified shell executes them against the real X connection and feeds
//! decoded events back in.

#![verifier::loop_isolation(false)]

use vstd::prelude::*;

pub mod atoms;
pub mod request;
pub mod xevent;
pub mod manager;
pub mod bus;
pub mod workspace;
pub mod wm_util;
pub mod ipc;

verus! {

/// Exit code for a failed connection to the X server at startup.
pub const EXIT_FAILED_CONNECT: i32 = 10;

/// Exit code used when another tray already owns the selection.
pub const EXIT_FAILED_SELECT: i32 = 11;

} // verus!
