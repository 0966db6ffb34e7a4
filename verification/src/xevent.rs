//! Decoded X events and the manager's answers to them.
//!
//! Raw X events are parsed once, at the channel boundary, into the closed
//! set of variants the tray reacts to; everything downstream dispatches on
//! [`TrayEvent`] and no event buffer is ever reinterpreted.

use vstd::prelude::*;

verus! {

/// An X event, decoded into the closed set of shapes the tray handles.
#[derive(Debug, Clone, Copy, PartialEq, Eq, Structural)]
pub enum TrayEvent {
    /// A property changed; carries the server timestamp of the change.
    PropertyNotify { window: u32, atom: u32, time: u32 },
    /// A client message; `opcode` and `window` are its second and third
    /// 32-bit data fields, as laid out by the tray protocol.
    ClientMessage { message_type: u32, opcode: u32, window: u32 },
    /// A window was reparented to `parent`.
    ReparentNotify { window: u32, parent: u32 },
    /// A window was destroyed.
    DestroyNotify { window: u32 },
    /// A window's geometry changed.
    ConfigureNotify { window: u32, width: u16, height: u16 },
    /// Another client took the selection away.
    SelectionClear,
    /// Any other event kind; ignored by the tray.
    Other,
}

/// What the event loop must do after the manager handled an event.
#[derive(Debug, Clone, Copy, PartialEq, Eq, Structural)]
pub enum EventResponse {
    /// Keep servicing events.
    KeepGoing,
    /// Terminate the run loop with this process exit code.
    Exit(i32),
    /// Claim the tray selection: issue `SetSelectionOwner` with these
    /// fields, query the owner again, and report the observed owner back
    /// through [`crate::manager::Manager::take_selection`].
    ClaimSelection { selection: u32, owner: u32, timestamp: u32 },
}

} // verus!
