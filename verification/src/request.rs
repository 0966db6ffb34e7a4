//! The X protocol requests the tray manager asks to have performed.
//!
//! The manager never touches the X connection itself.  Every request it
//! would issue is recorded as a value of [`XRequest`] in its outgoing
//! buffer, in the exact order the protocol wants them sent; the shell that
//! owns the connection drains the buffer and performs each request.
//! Contracts speak about the buffer through the spec-level mirror
//! [`XRequestModel`].

use vstd::prelude::*;

verus! {

/// Update mode of a property change.
#[derive(Debug, Clone, Copy, PartialEq, Eq, Structural)]
pub enum PropMode {
    /// Replace the whole property value.
    Replace,
    /// Append to the existing property value.
    Append,
}

/// Payload of a property change: 8-bit text or 32-bit words.
#[derive(Debug, Clone, PartialEq)]
pub enum PropPayload {
    /// Format-8 string data.
    Text(String),
    /// Format-32 words (cardinals, atoms, window or visual identifiers).
    Words(Vec<u32>),
}

/// Spec-level mirror of [`PropPayload`].
pub enum PropPayloadModel {
    Text(Seq<char>),
    Words(Seq<u32>),
}

impl View for PropPayload {
    type V = PropPayloadModel;

    open spec fn view(&self) -> PropPayloadModel {
        match self {
            PropPayload::Text(s) => PropPayloadModel::Text(s@),
            PropPayload::Words(w) => PropPayloadModel::Words(w@),
        }
    }
}

/// One protocol request, recorded instead of performed.
#[derive(Debug, Clone, PartialEq)]
pub enum XRequest {
    /// Create an input/output window with the given geometry and
    /// attributes (background pixel, event mask, override-redirect).
    CreateWindow {
        window: u32,
        parent: u32,
        x: i16,
        y: i16,
        width: u16,
        height: u16,
        back_pixel: u32,
        event_mask: u32,
        override_redirect: bool,
    },
    /// Change a property of a window.
    ChangeProperty {
        mode: PropMode,
        window: u32,
        property: u32,
        property_type: u32,
        format: u8,
        payload: PropPayload,
    },
    /// Replace a window's event mask.
    SetEventMask { window: u32, mask: u32 },
    /// Reparent a window to the given parent at the given position.
    Reparent { window: u32, parent: u32, x: i16, y: i16 },
    /// Map a window.
    MapWindow { window: u32 },
    /// Unmap a window.
    UnmapWindow { window: u32 },
    /// Configure only the x position of a window.
    ConfigureX { window: u32, x: u32 },
    /// Configure only the size of a window.
    ConfigureSize { window: u32, width: u32, height: u32 },
    /// Configure position and size of a window.
    ConfigureRect { window: u32, x: u32, y: u32, width: u32, height: u32 },
    /// Claim a selection with the given owner window and timestamp.
    SetSelectionOwner { owner: u32, selection: u32, time: u32 },
    /// Send a format-32 client message with the given five data words to
    /// `destination`, addressed at `window`.
    SendClientMessage { destination: u32, window: u32, message_type: u32, data: Vec<u32> },
    /// Destroy a window.
    DestroyWindow { window: u32 },
    /// Flush the connection's outgoing buffer.
    Flush,
}

/// Spec-level mirror of [`XRequest`].
pub enum XRequestModel {
    CreateWindow {
        window: u32,
        parent: u32,
        x: i16,
        y: i16,
        width: u16,
        height: u16,
        back_pixel: u32,
        event_mask: u32,
        override_redirect: bool,
    },
    ChangeProperty {
        mode: PropMode,
        window: u32,
        property: u32,
        property_type: u32,
        format: u8,
        payload: PropPayloadModel,
    },
    SetEventMask { window: u32, mask: u32 },
    Reparent { window: u32, parent: u32, x: i16, y: i16 },
    MapWindow { window: u32 },
    UnmapWindow { window: u32 },
    ConfigureX { window: u32, x: u32 },
    ConfigureSize { window: u32, width: u32, height: u32 },
    ConfigureRect { window: u32, x: u32, y: u32, width: u32, height: u32 },
    SetSelectionOwner { owner: u32, selection: u32, time: u32 },
    SendClientMessage { destination: u32, window: u32, message_type: u32, data: Seq<u32> },
    DestroyWindow { window: u32 },
    Flush,
}

impl View for XRequest {
    type V = XRequestModel;

    open spec fn view(&self) -> XRequestModel {
        match self {
            XRequest::CreateWindow {
                window,
                parent,
                x,
                y,
                width,
                height,
                back_pixel,
                event_mask,
                override_redirect,
            } => XRequestModel::CreateWindow {
                window: *window,
                parent: *parent,
                x: *x,
                y: *y,
                width: *width,
                height: *height,
                back_pixel: *back_pixel,
                event_mask: *event_mask,
                override_redirect: *override_redirect,
            },
            XRequest::ChangeProperty { mode, window, property, property_type, format, payload } => {
                XRequestModel::ChangeProperty {
                    mode: *mode,
                    window: *window,
                    property: *property,
                    property_type: *property_type,
                    format: *format,
                    payload: payload@,
                }
            },
            XRequest::SetEventMask { window, mask } => XRequestModel::SetEventMask {
                window: *window,
                mask: *mask,
            },
            XRequest::Reparent { window, parent, x, y } => XRequestModel::Reparent {
                window: *window,
                parent: *parent,
                x: *x,
                y: *y,
            },
            XRequest::MapWindow { window } => XRequestModel::MapWindow { window: *window },
            XRequest::UnmapWindow { window } => XRequestModel::UnmapWindow { window: *window },
            XRequest::ConfigureX { window, x } => XRequestModel::ConfigureX {
                window: *window,
                x: *x,
            },
            XRequest::ConfigureSize { window, width, height } => XRequestModel::ConfigureSize {
                window: *window,
                width: *width,
                height: *height,
            },
            XRequest::ConfigureRect { window, x, y, width, height } => XRequestModel::ConfigureRect {
                window: *window,
                x: *x,
                y: *y,
                width: *width,
                height: *height,
            },
            XRequest::SetSelectionOwner { owner, selection, time } => {
                XRequestModel::SetSelectionOwner {
                    owner: *owner,
                    selection: *selection,
                    time: *time,
                }
            },
            XRequest::SendClientMessage { destination, window, message_type, data } => {
                XRequestModel::SendClientMessage {
                    destination: *destination,
                    window: *window,
                    message_type: *message_type,
                    data: data@,
                }
            },
            XRequest::DestroyWindow { window } => XRequestModel::DestroyWindow { window: *window },
            XRequest::Flush => XRequestModel::Flush,
        }
    }
}

} // verus!
