//! Translation of raw server events into the closed set of events the window
//! manager reacts to.
//!
//! A raw event is a fixed-size record whose first byte, the type tag, says
//! how the rest is laid out. [`RawEvent`] holds the tag together with the
//! fields of each layout the translation reads, so that choosing the layout
//! from the tag is done here and nowhere else.
use vstd::prelude::*;
use crate::data_types::{widen, widened, KeyCode, Point, WinId};

verus! {

/// Type tag of a key press.
pub const KEY_PRESS: u8 = 2;

/// Type tag of a pointer button press.
pub const BUTTON_PRESS: u8 = 4;

/// Type tag of a pointer button release.
pub const BUTTON_RELEASE: u8 = 5;

/// Type tag of the pointer entering a window.
pub const ENTER_NOTIFY: u8 = 7;

/// Type tag of the pointer leaving a window.
pub const LEAVE_NOTIFY: u8 = 8;

/// Type tag of a window gaining the input focus.
pub const FOCUS_IN: u8 = 9;

/// Type tag of a window losing the input focus.
pub const FOCUS_OUT: u8 = 10;

/// Type tag of a window having been destroyed.
pub const DESTROY_NOTIFY: u8 = 17;

/// Type tag of a window having been mapped.
pub const MAP_NOTIFY: u8 = 19;

/// Type tag of a change of the screen resources.
pub const SCREEN_CHANGE_NOTIFY: u8 = 0;

/// Offset of the output-change notification from the RandR extension's
/// first event.
pub const RANDR_NOTIFY: u8 = 1;

/// A raw event read as a key event.
#[derive(Debug, Copy, Clone, PartialEq, Eq, Structural)]
pub struct KeyFields {
    /// The key code.
    pub detail: u8,
    /// The modifiers held.
    pub state: u16,
}

/// A raw event read as a map notification. A destroy notification has its
/// window in the same place.
#[derive(Debug, Copy, Clone, PartialEq, Eq, Structural)]
pub struct MapFields {
    /// The window that was mapped or destroyed.
    pub window: WinId,
    /// Whether the window asks to be left alone by window managers.
    pub override_redirect: bool,
}

/// A raw event read as a pointer crossing (enter or leave).
#[derive(Debug, Copy, Clone, PartialEq, Eq, Structural)]
pub struct CrossingFields {
    /// The window the crossing was reported on.
    pub event: WinId,
    /// Pointer position relative to the root window.
    pub root_x: i16,
    pub root_y: i16,
    /// Pointer position relative to the event window.
    pub event_x: i16,
    pub event_y: i16,
}

/// A raw event read as a focus change.
#[derive(Debug, Copy, Clone, PartialEq, Eq, Structural)]
pub struct FocusFields {
    /// The window whose focus changed.
    pub event: WinId,
}

/// One event as it came off the wire: its type tag and the record read in
/// each of the layouts that the translation may need.
#[derive(Debug, Copy, Clone, PartialEq, Eq, Structural)]
pub struct RawEvent {
    pub response_type: u8,
    pub key: KeyFields,
    pub map: MapFields,
    pub crossing: CrossingFields,
    pub focus: FocusFields,
}

/// The events handed to the window manager.
#[derive(Debug, Copy, Clone, PartialEq, Eq, Structural)]
pub enum XEvent {
    /// A pointer button was pressed.
    ButtonPress,
    /// A pointer button was released.
    ButtonRelease,
    /// A grabbed key was pressed.
    KeyPress {
        /// The key and the modifiers that were held.
        code: KeyCode,
    },
    /// A window was mapped.
    MapNotify {
        /// The window being mapped.
        id: WinId,
        /// Whether the window manager should leave this window alone.
        ignore: bool,
    },
    /// The pointer entered a window.
    Enter {
        /// The window that was entered.
        id: WinId,
        /// Pointer position relative to the root window.
        rpt: Point,
        /// Pointer position relative to the window itself.
        wpt: Point,
    },
    /// The pointer left a window.
    Leave {
        /// The window that was left.
        id: WinId,
        /// Pointer position relative to the root window.
        rpt: Point,
        /// Pointer position relative to the window itself.
        wpt: Point,
    },
    /// A window gained the input focus.
    FocusIn {
        /// The window that gained focus.
        id: WinId,
    },
    /// A window lost the input focus.
    FocusOut {
        /// The window that lost focus.
        id: WinId,
    },
    /// A window was destroyed.
    Destroy {
        /// The window that was destroyed.
        id: WinId,
    },
    /// The screen resources changed.
    ScreenChange,
    /// The RandR extension reported an output change.
    RandrNotify,
}

/// Whether `tag` is the RandR output-change notification for an extension
/// whose first event is `randr_base`. The sum is taken in the integers: a
/// base of 255 has no notification tag.
pub open spec fn is_randr_notify(tag: u8, randr_base: u8) -> bool {
    tag == randr_base + RANDR_NOTIFY
}

/// The root-relative position of a crossing.
pub open spec fn root_point(c: CrossingFields) -> Point {
    Point { x: widened(c.root_x), y: widened(c.root_y) }
}

/// The window-relative position of a crossing.
pub open spec fn window_point(c: CrossingFields) -> Point {
    Point { x: widened(c.event_x), y: widened(c.event_y) }
}

/// The event that a raw event stands for, if any. The RandR notification is
/// tested first; every other tag is taken literally.
pub open spec fn translation(raw: RawEvent, randr_base: u8) -> Option<XEvent> {
    let tag = raw.response_type;
    if is_randr_notify(tag, randr_base) {
        Some(XEvent::RandrNotify)
    } else if tag == KEY_PRESS {
        Some(XEvent::KeyPress { code: KeyCode { mask: raw.key.state, code: raw.key.detail } })
    } else if tag == MAP_NOTIFY {
        Some(XEvent::MapNotify { id: raw.map.window, ignore: raw.map.override_redirect })
    } else if tag == ENTER_NOTIFY {
        Some(
            XEvent::Enter {
                id: raw.crossing.event,
                rpt: root_point(raw.crossing),
                wpt: window_point(raw.crossing),
            },
        )
    } else if tag == LEAVE_NOTIFY {
        Some(
            XEvent::Leave {
                id: raw.crossing.event,
                rpt: root_point(raw.crossing),
                wpt: window_point(raw.crossing),
            },
        )
    } else if tag == FOCUS_IN {
        Some(XEvent::FocusIn { id: raw.focus.event })
    } else if tag == FOCUS_OUT {
        Some(XEvent::FocusOut { id: raw.focus.event })
    } else if tag == DESTROY_NOTIFY {
        Some(XEvent::Destroy { id: raw.map.window })
    } else if tag == SCREEN_CHANGE_NOTIFY {
        Some(XEvent::ScreenChange)
    } else {
        None
    }
}

/// The tags that translate to an event.
pub open spec fn yields_event(tag: u8, randr_base: u8) -> bool {
    ||| is_randr_notify(tag, randr_base)
    ||| tag == KEY_PRESS
    ||| tag == MAP_NOTIFY
    ||| tag == ENTER_NOTIFY
    ||| tag == LEAVE_NOTIFY
    ||| tag == FOCUS_IN
    ||| tag == FOCUS_OUT
    ||| tag == DESTROY_NOTIFY
    ||| tag == SCREEN_CHANGE_NOTIFY
}

/// Translates one raw event. Never fails: a tag that stands for nothing the
/// window manager handles, button presses and releases among them, gives
/// `None`, and the caller simply waits for the next event.
pub fn translate(raw: &RawEvent, randr_base: u8) -> (ev: Option<XEvent>)
    ensures
        ev == translation(*raw, randr_base),
        ev is Some <==> yields_event(raw.response_type, randr_base),
        is_randr_notify(raw.response_type, randr_base) ==> ev == Some(XEvent::RandrNotify),
{
    let tag: u8 = raw.response_type;
    let notify: u16 = randr_base as u16 + RANDR_NOTIFY as u16;
    if tag as u16 == notify {
        return Some(XEvent::RandrNotify);
    }
    if tag == BUTTON_PRESS || tag == BUTTON_RELEASE {
        None
    } else if tag == KEY_PRESS {
        Some(XEvent::KeyPress { code: KeyCode::from_key_press(raw.key.detail, raw.key.state) })
    } else if tag == MAP_NOTIFY {
        Some(XEvent::MapNotify { id: raw.map.window, ignore: raw.map.override_redirect })
    } else if tag == ENTER_NOTIFY {
        Some(
            XEvent::Enter {
                id: raw.crossing.event,
                rpt: Point::new(widen(raw.crossing.root_x), widen(raw.crossing.root_y)),
                wpt: Point::new(widen(raw.crossing.event_x), widen(raw.crossing.event_y)),
            },
        )
    } else if tag == LEAVE_NOTIFY {
        Some(
            XEvent::Leave {
                id: raw.crossing.event,
                rpt: Point::new(widen(raw.crossing.root_x), widen(raw.crossing.root_y)),
                wpt: Point::new(widen(raw.crossing.event_x), widen(raw.crossing.event_y)),
            },
        )
    } else if tag == FOCUS_IN {
        Some(XEvent::FocusIn { id: raw.focus.event })
    } else if tag == FOCUS_OUT {
        Some(XEvent::FocusOut { id: raw.focus.event })
    } else if tag == DESTROY_NOTIFY {
        Some(XEvent::Destroy { id: raw.map.window })
    } else if tag == SCREEN_CHANGE_NOTIFY {
        Some(XEvent::ScreenChange)
    } else {
        None
    }
}

} // verus!
