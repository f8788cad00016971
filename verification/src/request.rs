//! What is sent to the server, as plain data.
//!
//! Nothing in this crate talks to a server. Every operation that changes
//! something on the server is computed here as a [`Request`], or a list of
//! them in the order in which they are to be sent, and whoever owns the
//! connection sends them. A read is computed as a [`GetProperty`], or is a
//! round trip without parameters worth naming, and its reply comes back as
//! plain values to the function that decodes it.
use vstd::prelude::*;
use crate::data_types::WinId;

verus! {

/// Window class of a window that takes input and shows nothing.
pub const WINDOW_CLASS_INPUT_ONLY: u16 = 2;

/// RandR: report changes of an output controller.
pub const NOTIFY_MASK_CRTC_CHANGE: u16 = 2;

/// Grab mode under which event processing goes on while a grab is active.
pub const GRAB_MODE_ASYNC: u8 = 1;

/// Focus goes to the parent when the focused window becomes unviewable.
pub const INPUT_FOCUS_PARENT: u8 = 2;

/// A property write that discards what the property held.
pub const PROP_MODE_REPLACE: u8 = 0;

/// In a read: a property of any type.
pub const ATOM_ANY: u32 = 0;

/// Predefined atom: the type of a list of atoms.
pub const ATOM_ATOM: u32 = 4;

/// Predefined atom: the type of a list of numbers.
pub const ATOM_CARDINAL: u32 = 6;

/// Predefined atom: the type of a list of windows.
pub const ATOM_WINDOW: u32 = 33;

/// Window configuration: the x coordinate.
pub const CONFIG_WINDOW_X: u16 = 1;

/// Window configuration: the y coordinate.
pub const CONFIG_WINDOW_Y: u16 = 2;

/// Window configuration: the width.
pub const CONFIG_WINDOW_WIDTH: u16 = 4;

/// Window configuration: the height.
pub const CONFIG_WINDOW_HEIGHT: u16 = 8;

/// Window configuration: the border width.
pub const CONFIG_WINDOW_BORDER_WIDTH: u16 = 16;

/// Window configuration: the place in the stacking order.
pub const CONFIG_WINDOW_STACK_MODE: u16 = 64;

/// Stacking order: above all siblings.
pub const STACK_MODE_ABOVE: u32 = 0;

/// Window attribute: the border colour.
pub const CW_BORDER_PIXEL: u32 = 8;

/// Window attribute: the events the client wants of the window.
pub const CW_EVENT_MASK: u32 = 2048;

/// Event mask: nothing.
pub const EVENT_MASK_NO_EVENT: u32 = 0;

/// Event mask: button presses.
pub const EVENT_MASK_BUTTON_PRESS: u32 = 4;

/// Event mask: button releases.
pub const EVENT_MASK_BUTTON_RELEASE: u32 = 8;

/// Event mask: the pointer entering the window.
pub const EVENT_MASK_ENTER_WINDOW: u32 = 16;

/// Event mask: the pointer leaving the window.
pub const EVENT_MASK_LEAVE_WINDOW: u32 = 32;

/// Event mask: pointer motion.
pub const EVENT_MASK_POINTER_MOTION: u32 = 64;

/// Event mask: changes to the children of the window.
pub const EVENT_MASK_SUBSTRUCTURE_NOTIFY: u32 = 524288;

/// Modifier mask: the fourth modifier, by custom the "super" key.
pub const MOD_MASK_4: u16 = 64;

/// Modifier mask: any combination of modifiers.
pub const MOD_MASK_ANY: u16 = 32768;

/// In a key release: every key.
pub const GRAB_ANY: u8 = 0;

/// In a button release: every button.
pub const BUTTON_INDEX_ANY: u8 = 0;

/// No window, no cursor.
pub const NONE: u32 = 0;

/// In place of a timestamp: now.
pub const CURRENT_TIME: u32 = 0;

/// The events asked of a window that has just appeared: the pointer
/// entering and leaving it.
pub const NEW_WINDOW_EVENTS: u32 = EVENT_MASK_ENTER_WINDOW | EVENT_MASK_LEAVE_WINDOW;

/// The events reported while a pointer button is grabbed: presses, releases
/// and motion.
pub const MOUSE_MASK: u16 = (EVENT_MASK_BUTTON_PRESS | EVENT_MASK_BUTTON_RELEASE
    | EVENT_MASK_POINTER_MOTION) as u16;

/// The value of a property: bytes, or 32-bit numbers.
#[derive(Debug, PartialEq, Eq)]
pub enum PropertyValue {
    /// Format 8.
    Bytes(Vec<u8>),
    /// Format 32.
    Words(Vec<u32>),
}

/// A [`PropertyValue`] as mathematics sees it.
pub ghost enum PropertyValueView {
    Bytes(Seq<u8>),
    Words(Seq<u32>),
}

impl DeepView for PropertyValue {
    type V = PropertyValueView;

    open spec fn deep_view(&self) -> PropertyValueView {
        match *self {
            PropertyValue::Bytes(b) => PropertyValueView::Bytes(b@),
            PropertyValue::Words(w) => PropertyValueView::Words(w@),
        }
    }
}

impl PropertyValue {
    /// The width in bits of one item of the value.
    pub fn format(&self) -> (bits: u8)
        ensures
            bits == (if *self is Bytes {
                8u8
            } else {
                32u8
            }),
    {
        match self {
            PropertyValue::Bytes(_) => 8,
            PropertyValue::Words(_) => 32,
        }
    }
}

/// One request that has no reply.
#[derive(Debug, PartialEq, Eq)]
#[allow(inconsistent_fields)]
pub enum Request {
    /// Create a window with the attributes its class gives it.
    CreateWindow {
        depth: u8,
        wid: WinId,
        parent: WinId,
        x: i16,
        y: i16,
        width: u16,
        height: u16,
        border_width: u16,
        class: u16,
        visual: u32,
    },
    /// RandR: choose the notifications wanted of a window.
    SelectInput { window: WinId, enable: u16 },
    /// Each value with the mask bit that says what it configures.
    ConfigureWindow { window: WinId, values: Vec<(u16, u32)> },
    /// Each value with the mask bit of the attribute it sets.
    ChangeWindowAttributes { window: WinId, values: Vec<(u32, u32)> },
    MapWindow { window: WinId },
    UnmapWindow { window: WinId },
    DestroyWindow { window: WinId },
    /// Send `destination` a client message; `format` is the width in bits of
    /// the items of `data`.
    SendClientMessage {
        propagate: bool,
        destination: WinId,
        event_mask: u32,
        format: u8,
        window: WinId,
        message_type: u32,
        data: (u32, u32, u32, u32, u32),
    },
    SetInputFocus { revert_to: u8, focus: WinId, time: u32 },
    ChangeProperty { mode: u8, window: WinId, property: u32, ty: u32, value: PropertyValue },
    DeleteProperty { window: WinId, property: u32 },
    GrabKey {
        owner_events: bool,
        grab_window: WinId,
        modifiers: u16,
        key: u8,
        pointer_mode: u8,
        keyboard_mode: u8,
    },
    GrabButton {
        owner_events: bool,
        grab_window: WinId,
        event_mask: u16,
        pointer_mode: u8,
        keyboard_mode: u8,
        confine_to: WinId,
        cursor: u32,
        button: u8,
        modifiers: u16,
    },
    UngrabKey { key: u8, grab_window: WinId, modifiers: u16 },
    UngrabButton { button: u8, grab_window: WinId, modifiers: u16 },
    WarpPointer {
        src_window: WinId,
        dst_window: WinId,
        src_x: i16,
        src_y: i16,
        src_width: u16,
        src_height: u16,
        dst_x: i16,
        dst_y: i16,
    },
    /// Not a request of its own: send what is buffered.
    Flush,
}

/// A [`Request`] as mathematics sees it.
#[allow(inconsistent_fields)]
pub ghost enum RequestView {
    CreateWindow {
        depth: u8,
        wid: WinId,
        parent: WinId,
        x: i16,
        y: i16,
        width: u16,
        height: u16,
        border_width: u16,
        class: u16,
        visual: u32,
    },
    SelectInput { window: WinId, enable: u16 },
    ConfigureWindow { window: WinId, values: Seq<(u16, u32)> },
    ChangeWindowAttributes { window: WinId, values: Seq<(u32, u32)> },
    MapWindow { window: WinId },
    UnmapWindow { window: WinId },
    DestroyWindow { window: WinId },
    SendClientMessage {
        propagate: bool,
        destination: WinId,
        event_mask: u32,
        format: u8,
        window: WinId,
        message_type: u32,
        data: (u32, u32, u32, u32, u32),
    },
    SetInputFocus { revert_to: u8, focus: WinId, time: u32 },
    ChangeProperty { mode: u8, window: WinId, property: u32, ty: u32, value: PropertyValueView },
    DeleteProperty { window: WinId, property: u32 },
    GrabKey {
        owner_events: bool,
        grab_window: WinId,
        modifiers: u16,
        key: u8,
        pointer_mode: u8,
        keyboard_mode: u8,
    },
    GrabButton {
        owner_events: bool,
        grab_window: WinId,
        event_mask: u16,
        pointer_mode: u8,
        keyboard_mode: u8,
        confine_to: WinId,
        cursor: u32,
        button: u8,
        modifiers: u16,
    },
    UngrabKey { key: u8, grab_window: WinId, modifiers: u16 },
    UngrabButton { button: u8, grab_window: WinId, modifiers: u16 },
    WarpPointer {
        src_window: WinId,
        dst_window: WinId,
        src_x: i16,
        src_y: i16,
        src_width: u16,
        src_height: u16,
        dst_x: i16,
        dst_y: i16,
    },
    Flush,
}

impl DeepView for Request {
    type V = RequestView;

    open spec fn deep_view(&self) -> RequestView {
        match *self {
            Request::CreateWindow {
                depth,
                wid,
                parent,
                x,
                y,
                width,
                height,
                border_width,
                class,
                visual,
            } => RequestView::CreateWindow {
                depth,
                wid,
                parent,
                x,
                y,
                width,
                height,
                border_width,
                class,
                visual,
            },
            Request::SelectInput { window, enable } => RequestView::SelectInput { window, enable },
            Request::ConfigureWindow { window, values } => RequestView::ConfigureWindow {
                window,
                values: values@,
            },
            Request::ChangeWindowAttributes {
                window,
                values,
            } => RequestView::ChangeWindowAttributes { window, values: values@ },
            Request::MapWindow { window } => RequestView::MapWindow { window },
            Request::UnmapWindow { window } => RequestView::UnmapWindow { window },
            Request::DestroyWindow { window } => RequestView::DestroyWindow { window },
            Request::SendClientMessage {
                propagate,
                destination,
                event_mask,
                format,
                window,
                message_type,
                data,
            } => RequestView::SendClientMessage {
                propagate,
                destination,
                event_mask,
                format,
                window,
                message_type,
                data,
            },
            Request::SetInputFocus { revert_to, focus, time } => RequestView::SetInputFocus {
                revert_to,
                focus,
                time,
            },
            Request::ChangeProperty {
                mode,
                window,
                property,
                ty,
                value,
            } => RequestView::ChangeProperty {
                mode,
                window,
                property,
                ty,
                value: value.deep_view(),
            },
            Request::DeleteProperty { window, property } => RequestView::DeleteProperty {
                window,
                property,
            },
            Request::GrabKey {
                owner_events,
                grab_window,
                modifiers,
                key,
                pointer_mode,
                keyboard_mode,
            } => RequestView::GrabKey {
                owner_events,
                grab_window,
                modifiers,
                key,
                pointer_mode,
                keyboard_mode,
            },
            Request::GrabButton {
                owner_events,
                grab_window,
                event_mask,
                pointer_mode,
                keyboard_mode,
                confine_to,
                cursor,
                button,
                modifiers,
            } => RequestView::GrabButton {
                owner_events,
                grab_window,
                event_mask,
                pointer_mode,
                keyboard_mode,
                confine_to,
                cursor,
                button,
                modifiers,
            },
            Request::UngrabKey { key, grab_window, modifiers } => RequestView::UngrabKey {
                key,
                grab_window,
                modifiers,
            },
            Request::UngrabButton {
                button,
                grab_window,
                modifiers,
            } => RequestView::UngrabButton { button, grab_window, modifiers },
            Request::WarpPointer {
                src_window,
                dst_window,
                src_x,
                src_y,
                src_width,
                src_height,
                dst_x,
                dst_y,
            } => RequestView::WarpPointer {
                src_window,
                dst_window,
                src_x,
                src_y,
                src_width,
                src_height,
                dst_x,
                dst_y,
            },
            Request::Flush => RequestView::Flush,
        }
    }
}

/// The write that replaces a property by a list of 32-bit numbers.
pub open spec fn replace_words(window: WinId, property: u32, ty: u32, words: Seq<u32>) -> RequestView {
    RequestView::ChangeProperty {
        mode: PROP_MODE_REPLACE,
        window,
        property,
        ty,
        value: PropertyValueView::Words(words),
    }
}

/// The write that replaces a property by a byte string.
pub open spec fn replace_bytes(window: WinId, property: u32, ty: u32, bytes: Seq<u8>) -> RequestView {
    RequestView::ChangeProperty {
        mode: PROP_MODE_REPLACE,
        window,
        property,
        ty,
        value: PropertyValueView::Bytes(bytes),
    }
}

impl Request {
    /// Replaces a property by a list of 32-bit numbers. What the property
    /// held is discarded, never added to.
    pub fn replace_words(window: WinId, property: u32, ty: u32, words: Vec<u32>) -> (r: Request)
        ensures
            r.deep_view() == replace_words(window, property, ty, words@),
    {
        Request::ChangeProperty {
            mode: PROP_MODE_REPLACE,
            window,
            property,
            ty,
            value: PropertyValue::Words(words),
        }
    }

    /// Replaces a property by a byte string. What the property held is
    /// discarded, never added to.
    pub fn replace_bytes(window: WinId, property: u32, ty: u32, bytes: Vec<u8>) -> (r: Request)
        ensures
            r.deep_view() == replace_bytes(window, property, ty, bytes@),
    {
        Request::ChangeProperty {
            mode: PROP_MODE_REPLACE,
            window,
            property,
            ty,
            value: PropertyValue::Bytes(bytes),
        }
    }
}

/// A read of a window property: at most `long_length` 32-bit units of it,
/// from `long_offset` on. What lies beyond is not fetched.
#[derive(Debug, Copy, Clone, PartialEq, Eq, Structural)]
pub struct GetProperty {
    pub delete: bool,
    pub window: WinId,
    pub property: u32,
    pub ty: u32,
    pub long_offset: u32,
    pub long_length: u32,
}

/// The request that resolves an atom name to its identifier. With
/// `only_if_exists` unset the server makes the atom where it does not have
/// it yet.
#[derive(Debug, Copy, Clone, PartialEq, Eq)]
pub struct InternAtom {
    pub only_if_exists: bool,
    pub name: &'static str,
}

/// A read of a window's geometry.
#[derive(Debug, Copy, Clone, PartialEq, Eq, Structural)]
pub struct GetGeometry {
    pub drawable: WinId,
}

/// A read of the pointer's position, asked of a window.
#[derive(Debug, Copy, Clone, PartialEq, Eq, Structural)]
pub struct QueryPointer {
    pub window: WinId,
}

/// A read of the children of a window.
#[derive(Debug, Copy, Clone, PartialEq, Eq, Structural)]
pub struct QueryTree {
    pub window: WinId,
}

/// RandR: a read of the output controllers of the screen a window is on.
#[derive(Debug, Copy, Clone, PartialEq, Eq, Structural)]
pub struct GetScreenResources {
    pub window: WinId,
}

/// RandR: a read of one output controller.
#[derive(Debug, Copy, Clone, PartialEq, Eq, Structural)]
pub struct GetCrtcInfo {
    pub crtc: u32,
    pub config_timestamp: u32,
}

} // verus!
