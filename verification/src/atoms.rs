//! Interned X atom identifiers and the protocol constants the tray uses.
//!
//! Atom names are resolved once at startup by the shell that owns the X
//! connection; the library only works with the resolved integer identifiers.

use vstd::prelude::*;

verus! {

/// The owner value reported for an unowned selection.
pub const XCB_NONE: u32 = 0;

/// Predefined atom: `STRING`.
pub const XA_STRING: u32 = 31;

/// Predefined atom: `CARDINAL`.
pub const XA_CARDINAL: u32 = 6;

/// Predefined atom: `ATOM`.
pub const XA_ATOM: u32 = 4;

/// Predefined atom: `VISUALID`.
pub const XA_VISUALID: u32 = 32;

/// Predefined atom: `INTEGER`.
pub const XA_INTEGER: u32 = 19;

/// Predefined atom: `WM_NAME`.
pub const XA_WM_NAME: u32 = 39;

/// Predefined atom: `WM_CLASS`.
pub const XA_WM_CLASS: u32 = 67;

/// Event mask with no events selected.
pub const EVENT_MASK_NO_EVENT: u32 = 0;

/// Event mask bit for `StructureNotify` events.
pub const EVENT_MASK_STRUCTURE_NOTIFY: u32 = 0x20000;

/// Event mask bit for `PropertyNotify` events.
pub const EVENT_MASK_PROPERTY_CHANGE: u32 = 0x400000;

/// Tray opcode: a client asks to dock the window named in its message.
pub const SYSTEM_TRAY_REQUEST_DOCK: u32 = 0;

/// Tray opcode: start of a balloon message (not implemented).
pub const SYSTEM_TRAY_BEGIN_MESSAGE: u32 = 1;

/// Tray opcode: cancellation of a balloon message (not implemented).
pub const SYSTEM_TRAY_CANCEL_MESSAGE: u32 = 2;

/// The atoms the tray protocol needs, resolved to their interned
/// identifiers.  Resolution happens once at startup and is fatal on
/// failure, so a value of this type always holds valid identifiers.
#[derive(Debug, Clone, Copy, PartialEq, Eq, Structural)]
pub struct Atoms {
    /// `_NET_SYSTEM_TRAY_S0`: the per-screen tray selection.
    pub net_system_tray_s0: u32,
    /// `_NET_SYSTEM_TRAY_OPCODE`: type of tray client messages.
    pub net_system_tray_opcode: u32,
    /// `_NET_SYSTEM_TRAY_ORIENTATION`: layout orientation property.
    pub net_system_tray_orientation: u32,
    /// `_NET_SYSTEM_TRAY_VISUAL`: the visual the tray renders with.
    pub net_system_tray_visual: u32,
    /// `_NET_WM_WINDOW_TYPE`: window type hint.
    pub net_wm_window_type: u32,
    /// `_NET_WM_WINDOW_TYPE_DOCK`: the dock window type.
    pub net_wm_window_type_dock: u32,
    /// `_NET_WM_STATE`: window state property.
    pub net_wm_state: u32,
    /// `_NET_WM_STATE_SKIP_TASKBAR`: keep the tray out of taskbars.
    pub net_wm_state_skip_taskbar: u32,
    /// `_NET_WM_STATE_STICKY`: keep the tray on every workspace.
    pub net_wm_state_sticky: u32,
    /// `WM_PROTOCOLS`: protocol participation property.
    pub wm_protocols: u32,
    /// `WM_DELETE_WINDOW`: the delete-window protocol.
    pub wm_delete_window: u32,
    /// `WM_TAKE_FOCUS`: the take-focus protocol.
    pub wm_take_focus: u32,
    /// `_MOTIF_WM_HINTS`: decoration hints.
    pub motif_wm_hints: u32,
    /// `_COMPTON_SHADOW`: compositor shadow toggle.
    pub compton_shadow: u32,
    /// `MANAGER`: the broadcast that announces a new selection owner.
    pub manager: u32,
}

} // verus!
