//! The interface between the window manager and the X server, and an
//! in-memory stand-in for the server that needs no display.
use vstd::prelude::*;
use vstd::string::StringExecFns;
use crate::data_types::{KeyBindings, Point, Region, WinId};
use crate::event::XEvent;
use crate::screen::Screen;

verus! {

/// Everything the window manager asks of the X server.
///
/// Waiting for an event and moving the focus change what the next call
/// returns, so they take `&mut self`; everything else only reads.
pub trait XConn {
    /// Sends whatever is still buffered to the server.
    fn flush(&self) -> bool;

    /// Waits for the next event. `None` where the event is one the window
    /// manager does not handle, or the connection is gone.
    fn wait_for_event(&mut self) -> Option<XEvent>;

    /// The outputs that are connected now.
    fn current_outputs(&self) -> Vec<Screen>;

    /// Where the pointer is, relative to the root window.
    fn cursor_position(&self) -> Point;

    /// Moves and resizes a window and sets its border width.
    fn position_window(&self, id: WinId, r: Region, border: u32);

    /// Asks to be told when the pointer enters or leaves a new window.
    fn mark_new_window(&self, id: WinId);

    /// Shows a window.
    fn map_window(&self, id: WinId);

    /// Hides a window.
    fn unmap_window(&self, id: WinId);

    /// Sends a protocol message, named by its atom, to a window.
    fn send_client_event(&self, id: WinId, atom_name: &str);

    /// The window that holds the input focus.
    fn focused_client(&self) -> WinId;

    /// Gives a window the input focus.
    fn focus_client(&mut self, id: WinId);

    /// Colours the border of a window.
    fn set_client_border_color(&self, id: WinId, color: u32);

    /// Claims the given keys, so that pressing one is reported to the window
    /// manager and not to the application under the pointer.
    fn grab_keys(&self, key_bindings: &KeyBindings);

    /// Publishes the properties by which other programs recognise a window
    /// manager and its workspaces.
    fn set_wm_properties(&self, workspaces: &[&str]);

    /// Publishes the number and the names of the workspaces.
    fn update_desktops(&self, workspaces: &[&str]);

    /// Publishes which workspace is shown.
    fn set_current_workspace(&self, wix: usize);

    /// Names the root window.
    fn set_root_window_name(&self, name: &str);

    /// Publishes the workspace a window is on.
    fn set_client_workspace(&self, id: WinId, wix: usize);

    /// Whether a window is to float above the tiled ones.
    fn window_should_float(&self, id: WinId, floating_classes: &[&str]) -> bool;

    /// Puts the pointer in the middle of a window or, without one, in the
    /// middle of a screen.
    fn warp_cursor(&self, win_id: Option<WinId>, screen: &Screen);

    /// The windows that exist already and are to be managed.
    fn query_for_active_windows(&self) -> Vec<WinId>;

    /// Reads a text property of a window.
    fn str_prop(&self, id: u32, name: &str) -> Result<String, String>;

    /// Reads an atom property of a window.
    fn atom_prop(&self, id: u32, name: &str) -> Result<u32, String>;

    /// Gives back what was claimed from the server. Call it once, last.
    fn cleanup(&self);
}

/// A stand-in for the server: a fixed list of screens, a queue of events
/// scripted in advance, and the window that was focused last.
pub struct MockXConn {
    screens: Vec<Screen>,
    events: Vec<XEvent>,
    focused: WinId,
}

/// What a [`MockXConn`] holds.
pub ghost struct MockState {
    /// The screens every output query returns.
    pub screens: Seq<Screen>,
    /// The events still to be delivered, next first.
    pub events: Seq<XEvent>,
    /// The window focused last; 0 before any was.
    pub focused: WinId,
}

impl MockState {
    /// The state after one wait for an event: the head of the queue is gone;
    /// an empty queue stays empty.
    pub open spec fn after_wait(self) -> MockState {
        if self.events.len() == 0 {
            self
        } else {
            MockState { events: self.events.drop_first(), ..self }
        }
    }

    /// What one wait for an event returns: the head of the queue.
    pub open spec fn next_event(self) -> Option<XEvent> {
        if self.events.len() == 0 {
            None
        } else {
            Some(self.events[0])
        }
    }

    /// The state after `id` was focused.
    pub open spec fn after_focus(self, id: WinId) -> MockState {
        MockState { focused: id, ..self }
    }
}

/// Once the queue is empty it stays empty: a wait returns nothing and
/// changes nothing, however often it is repeated.
pub proof fn lemma_empty_queue_stays_empty(s: MockState)
    requires
        s.events.len() == 0,
    ensures
        s.next_event() is None,
        s.after_wait() == s,
{
}

/// Events come out first in, first out: a wait on a queue that holds
/// something returns its head and leaves the rest, in order.
pub proof fn lemma_queue_is_fifo(s: MockState)
    requires
        s.events.len() > 0,
    ensures
        s.next_event() == Some(s.events[0]),
        s.after_wait().events == s.events.skip(1),
        s.after_wait().screens == s.screens,
        s.after_wait().focused == s.focused,
{
    assert(s.events.drop_first() =~= s.events.skip(1));
}

/// The focused window is the window focused last, and focusing touches
/// neither screens nor events.
pub proof fn lemma_focus_is_remembered(s: MockState, id: WinId)
    ensures
        s.after_focus(id).focused == id,
        s.after_focus(id).events == s.events,
        s.after_focus(id).screens == s.screens,
{
}

impl View for MockXConn {
    type V = MockState;

    closed spec fn view(&self) -> MockState {
        MockState { screens: self.screens@, events: self.events@, focused: self.focused }
    }
}

impl MockXConn {
    /// A stand-in that reports `screens` and delivers `events` in order.
    /// No window is focused.
    pub fn new(screens: Vec<Screen>, events: Vec<XEvent>) -> (conn: Self)
        ensures
            conn@ == (MockState { screens: screens@, events: events@, focused: 0 }),
    {
        MockXConn { screens, events, focused: 0 }
    }
}

impl XConn for MockXConn {
    fn flush(&self) -> (sent: bool)
        ensures
            sent,
    {
        true
    }

    fn wait_for_event(&mut self) -> (ev: Option<XEvent>)
        ensures
            ev == old(self)@.next_event(),
            final(self)@ == old(self)@.after_wait(),
    {
        if self.events.len() == 0 {
            return None;
        }
        let next = self.events.remove(0);
        Some(next)
    }

    fn current_outputs(&self) -> (screens: Vec<Screen>)
        ensures
            screens@ == self@.screens,
    {
        self.screens.clone()
    }

    fn cursor_position(&self) -> (p: Point)
        ensures
            p == (Point { x: 0, y: 0 }),
    {
        Point::new(0, 0)
    }

    fn position_window(&self, _id: WinId, _r: Region, _border: u32) {
    }

    fn mark_new_window(&self, _id: WinId) {
    }

    fn map_window(&self, _id: WinId) {
    }

    fn unmap_window(&self, _id: WinId) {
    }

    fn send_client_event(&self, _id: WinId, _atom_name: &str) {
    }

    fn focused_client(&self) -> (id: WinId)
        ensures
            id == self@.focused,
    {
        self.focused
    }

    fn focus_client(&mut self, id: WinId)
        ensures
            final(self)@ == old(self)@.after_focus(id),
    {
        self.focused = id;
    }

    fn set_client_border_color(&self, _id: WinId, _color: u32) {
    }

    fn grab_keys(&self, _key_bindings: &KeyBindings) {
    }

    fn set_wm_properties(&self, _workspaces: &[&str]) {
    }

    fn update_desktops(&self, _workspaces: &[&str]) {
    }

    fn set_current_workspace(&self, _wix: usize) {
    }

    fn set_root_window_name(&self, _name: &str) {
    }

    fn set_client_workspace(&self, _id: WinId, _wix: usize) {
    }

    fn window_should_float(&self, _id: WinId, _floating_classes: &[&str]) -> (float: bool)
        ensures
            float,
    {
        true
    }

    fn warp_cursor(&self, _win_id: Option<WinId>, _screen: &Screen) {
    }

    fn query_for_active_windows(&self) -> (ids: Vec<WinId>)
        ensures
            ids@.len() == 0,
    {
        Vec::new()
    }

    fn str_prop(&self, _id: u32, name: &str) -> (r: Result<String, String>)
        ensures
            r is Ok,
            r->Ok_0@ == name@,
    {
        Ok(String::from_str(name))
    }

    fn atom_prop(&self, id: u32, _name: &str) -> (r: Result<u32, String>)
        ensures
            r == Ok::<u32, String>(id),
    {
        Ok(id)
    }

    fn cleanup(&self) {
    }
}

} // verus!
