//! The state of one connection and what is decided from it.
//!
//! Each operation of [`XConn`](crate::xconnection::XConn) that changes
//! something on the server has a method of the same name here, which returns
//! the requests that the operation amounts to, in the order in which they
//! are to be sent. Each operation that reads has a method that takes what
//! was read and says what it means. Sending and reading are left to whoever
//! owns the connection.
use vstd::prelude::*;
use vstd::string::{StrSliceExecFns, StringExecFns};
use vstd::utf8::encode_utf8;
use crate::atoms::{auto_float_names, known_names, resolved, AtomTable, ATOM_COUNT};
use crate::classify::{
    has_piece_in, lemma_manageable_members, manageable, manageable_windows, reply_has_type_in,
    seen, should_float, text_of, types_of, window_should_float, CLASS_SEPARATOR,
};
use crate::data_types::{KeyCode, Region, WinId};
use crate::event::{translate, translation, RawEvent, XEvent};
use crate::property::{PropError, PROPERTY_READ_LENGTH, WINDOW_TYPE_READ_LENGTH};
use crate::request::{
    replace_bytes, replace_words, GetCrtcInfo, GetGeometry, GetProperty, GetScreenResources,
    QueryPointer, QueryTree, Request, RequestView, ATOM_ANY, ATOM_ATOM, BUTTON_INDEX_ANY,
    ATOM_CARDINAL, ATOM_WINDOW, CONFIG_WINDOW_BORDER_WIDTH, CONFIG_WINDOW_HEIGHT,
    CONFIG_WINDOW_STACK_MODE, CONFIG_WINDOW_WIDTH, CONFIG_WINDOW_X, CONFIG_WINDOW_Y,
    CURRENT_TIME, CW_BORDER_PIXEL, CW_EVENT_MASK, EVENT_MASK_NO_EVENT,
    EVENT_MASK_SUBSTRUCTURE_NOTIFY, GRAB_ANY, GRAB_MODE_ASYNC, INPUT_FOCUS_PARENT, MOD_MASK_4,
    MOD_MASK_ANY, MOUSE_MASK, NEW_WINDOW_EVENTS, NONE, STACK_MODE_ABOVE,
};
use crate::screen::Screen;
use crate::text::{encodings, join_utf8, joined, low_i16, low_u32, to_low_i16, to_low_u32};

verus! {

/// The name under which the window manager announces itself.
pub const WM_NAME: &'static str = "penrose";

/// The first pointer button that is grabbed for moving windows about.
pub const MOVE_BUTTON: u8 = 1;

/// The second pointer button that is grabbed, for resizing.
pub const RESIZE_BUTTON: u8 = 3;

/// What a connection knows once it is ready: the root window, the hidden
/// window that marks a window manager as present, the atoms, and the first
/// event code of the RandR extension.
pub struct Driver {
    pub root: WinId,
    pub check_win: WinId,
    pub atoms: AtomTable,
    pub randr_base: u8,
}

/// The request that sets one attribute of a window.
pub open spec fn set_attribute(window: WinId, attribute: u32, value: u32) -> RequestView {
    RequestView::ChangeWindowAttributes { window, values: seq![(attribute, value)] }
}

/// The grab of one key on a window: other clients no longer see the key
/// with these modifiers, and nothing freezes while it is held.
pub open spec fn key_grab(window: WinId, k: KeyCode) -> RequestView {
    RequestView::GrabKey {
        owner_events: false,
        grab_window: window,
        modifiers: k.mask,
        key: k.code,
        pointer_mode: GRAB_MODE_ASYNC,
        keyboard_mode: GRAB_MODE_ASYNC,
    }
}

/// The grabs of `keys` on a window, in the order of `keys`.
pub open spec fn key_grabs(window: WinId, keys: Seq<KeyCode>) -> Seq<RequestView> {
    Seq::new(keys.len(), |i: int| key_grab(window, keys[i]))
}

/// The grab of a pointer button, pressed together with the fourth modifier,
/// on a window.
pub open spec fn button_grab(window: WinId, button: u8) -> RequestView {
    RequestView::GrabButton {
        owner_events: false,
        grab_window: window,
        event_mask: MOUSE_MASK,
        pointer_mode: GRAB_MODE_ASYNC,
        keyboard_mode: GRAB_MODE_ASYNC,
        confine_to: NONE,
        cursor: NONE,
        button,
        modifiers: MOD_MASK_4,
    }
}

/// The request that puts the pointer at `(x, y)` within a window.
pub open spec fn warp_to(window: WinId, x: int, y: int) -> RequestView {
    RequestView::WarpPointer {
        src_window: NONE,
        dst_window: window,
        src_x: 0,
        src_y: 0,
        src_width: 0,
        src_height: 0,
        dst_x: low_i16(x),
        dst_y: low_i16(y),
    }
}

impl Driver {
    /// The identifier that this connection has for an atom name.
    pub open spec fn id_of(&self, name: &str) -> u32 {
        self.atoms@[name@]
    }

    /// The window types whose windows are shown to the window manager at
    /// startup but never managed: docks and toolbars.
    pub open spec fn unmanaged_types(&self) -> Seq<u32> {
        seq![self.id_of("_NET_WM_WINDOW_TYPE_DOCK"), self.id_of("_NET_WM_WINDOW_TYPE_TOOLBAR")]
    }

    /// The window types whose windows float.
    pub open spec fn auto_float_types(&self) -> Seq<u32> {
        resolved(self.atoms@, auto_float_names())
    }

    /// The driver of a connection that is ready.
    pub fn new(root: WinId, check_win: WinId, atoms: AtomTable, randr_base: u8) -> (d: Driver)
        ensures
            d.root == root,
            d.check_win == check_win,
            d.atoms == atoms,
            d.randr_base == randr_base,
    {
        Driver { root, check_win, atoms, randr_base }
    }

    /// The identifier of the name that stands at place `at` of the atom list.
    fn known_atom(&self, name: &'static str, Ghost(at): Ghost<int>) -> (id: u32)
        requires
            0 <= at < ATOM_COUNT,
            known_names()[at] == name@,
        ensures
            id == self.id_of(name),
    {
        self.atoms.atom(name)
    }

    /// The event that a raw event stands for on this connection, if any.
    pub fn wait_for_event(&self, raw: &RawEvent) -> (ev: Option<XEvent>)
        ensures
            ev == translation(*raw, self.randr_base),
    {
        translate(raw, self.randr_base)
    }

    /// Moving and resizing a window: its position, its size and its border
    /// width are set, and it is raised above its siblings.
    pub open spec fn position_request(id: WinId, r: Region, border: u32) -> RequestView {
        RequestView::ConfigureWindow {
            window: id,
            values: seq![
                (CONFIG_WINDOW_X, r.x),
                (CONFIG_WINDOW_Y, r.y),
                (CONFIG_WINDOW_WIDTH, r.w),
                (CONFIG_WINDOW_HEIGHT, r.h),
                (CONFIG_WINDOW_BORDER_WIDTH, border),
                (CONFIG_WINDOW_STACK_MODE, STACK_MODE_ABOVE),
            ],
        }
    }

    /// The request that moves and resizes window `id` to `r`, with a border
    /// of `border`, and raises it.
    pub fn position_window(&self, id: WinId, r: Region, border: u32) -> (req: Request)
        ensures
            req.deep_view() == Self::position_request(id, r, border),
    {
        let (x, y, w, h) = r.values();
        let mut values: Vec<(u16, u32)> = Vec::new();
        values.push((CONFIG_WINDOW_X, x));
        values.push((CONFIG_WINDOW_Y, y));
        values.push((CONFIG_WINDOW_WIDTH, w));
        values.push((CONFIG_WINDOW_HEIGHT, h));
        values.push((CONFIG_WINDOW_BORDER_WIDTH, border));
        values.push((CONFIG_WINDOW_STACK_MODE, STACK_MODE_ABOVE));
        let req = Request::ConfigureWindow { window: id, values };
        assert(req.deep_view()->ConfigureWindow_values =~= Self::position_request(
            id,
            r,
            border,
        )->ConfigureWindow_values);
        req
    }

    /// The request that asks for the pointer entering and leaving window
    /// `id` to be reported.
    pub fn mark_new_window(&self, id: WinId) -> (req: Request)
        ensures
            req.deep_view() == set_attribute(id, CW_EVENT_MASK, NEW_WINDOW_EVENTS),
    {
        change_attribute(id, CW_EVENT_MASK, NEW_WINDOW_EVENTS)
    }

    /// The request that shows window `id`.
    pub fn map_window(&self, id: WinId) -> (req: Request)
        ensures
            req.deep_view() == (RequestView::MapWindow { window: id }),
    {
        Request::MapWindow { window: id }
    }

    /// The request that hides window `id`.
    pub fn unmap_window(&self, id: WinId) -> (req: Request)
        ensures
            req.deep_view() == (RequestView::UnmapWindow { window: id }),
    {
        Request::UnmapWindow { window: id }
    }

    /// The protocol message named `atom_name`, addressed to `id`.
    pub open spec fn client_message(&self, id: WinId, atom_name: Seq<char>) -> RequestView {
        RequestView::SendClientMessage {
            propagate: false,
            destination: id,
            event_mask: EVENT_MASK_NO_EVENT,
            format: 32,
            window: id,
            message_type: self.id_of("WM_PROTOCOLS"),
            data: (self.atoms@[atom_name], CURRENT_TIME, 0, 0, 0),
        }
    }

    /// The request that sends window `id` the protocol message named
    /// `atom_name`, which has to be one of the known atom names.
    pub fn send_client_event(&self, id: WinId, atom_name: &str) -> (req: Request)
        requires
            known_names().contains(atom_name@),
        ensures
            req.deep_view() == self.client_message(id, atom_name@),
    {
        let atom = self.atoms.atom(atom_name);
        let wm_protocols = self.known_atom("WM_PROTOCOLS", Ghost(4));
        Request::SendClientMessage {
            propagate: false,
            destination: id,
            event_mask: EVENT_MASK_NO_EVENT,
            format: 32,
            window: id,
            message_type: wm_protocols,
            data: (atom, CURRENT_TIME, 0, 0, 0),
        }
    }

    /// Giving a window the focus: the input focus is set, falling back to the
    /// parent should the window vanish, and the window is published as the
    /// active one on the root window.
    pub open spec fn focus_requests(&self, id: WinId) -> Seq<RequestView> {
        seq![
            RequestView::SetInputFocus { revert_to: INPUT_FOCUS_PARENT, focus: id, time: 0 },
            replace_words(self.root, self.id_of("_NET_ACTIVE_WINDOW"), ATOM_WINDOW, seq![id]),
        ]
    }

    /// The requests that give window `id` the input focus.
    pub fn focus_client(&self, id: WinId) -> (plan: Vec<Request>)
        ensures
            plan.deep_view() == self.focus_requests(id),
    {
        let prop = self.known_atom("_NET_ACTIVE_WINDOW", Ghost(8));
        let mut plan: Vec<Request> = Vec::new();
        plan.push(Request::SetInputFocus { revert_to: INPUT_FOCUS_PARENT, focus: id, time: 0 });
        plan.push(Request::replace_words(self.root, prop, ATOM_WINDOW, one_word(id)));
        assert(plan.deep_view() =~= self.focus_requests(id));
        plan
    }

    /// The request that colours the border of window `id`.
    pub fn set_client_border_color(&self, id: WinId, color: u32) -> (req: Request)
        ensures
            req.deep_view() == set_attribute(id, CW_BORDER_PIXEL, color),
    {
        change_attribute(id, CW_BORDER_PIXEL, color)
    }

    /// Claiming the keys: a grab for each key, then the grabs of the two
    /// pointer buttons, then the request to be told of changes among the
    /// children of the root window, and a flush.
    pub open spec fn grab_requests(&self, keys: Seq<KeyCode>) -> Seq<RequestView> {
        key_grabs(self.root, keys) + seq![
            button_grab(self.root, MOVE_BUTTON),
            button_grab(self.root, RESIZE_BUTTON),
            set_attribute(self.root, CW_EVENT_MASK, EVENT_MASK_SUBSTRUCTURE_NOTIFY),
            RequestView::Flush,
        ]
    }

    /// The requests that claim `key_bindings` and the pointer buttons on the
    /// root window. A key that another client has claimed already is refused
    /// by the server without a word; nothing here depends on it.
    pub fn grab_keys(&self, key_bindings: &[KeyCode]) -> (plan: Vec<Request>)
        ensures
            plan.deep_view() == self.grab_requests(key_bindings@),
    {
        let mut plan: Vec<Request> = Vec::new();
        let mut i: usize = 0;
        while i < key_bindings.len()
            invariant
                i <= key_bindings@.len(),
                plan.deep_view() == key_grabs(self.root, key_bindings@).take(i as int),
            decreases key_bindings@.len() - i,
        {
            let k = key_bindings[i];
            let ghost before = plan.deep_view();
            plan.push(
                Request::GrabKey {
                    owner_events: false,
                    grab_window: self.root,
                    modifiers: k.mask,
                    key: k.code,
                    pointer_mode: GRAB_MODE_ASYNC,
                    keyboard_mode: GRAB_MODE_ASYNC,
                },
            );
            assert(plan.deep_view() =~= before.push(key_grab(self.root, k)));
            i += 1;
            assert(plan.deep_view() =~= key_grabs(self.root, key_bindings@).take(i as int));
        }
        assert(key_grabs(self.root, key_bindings@).take(i as int) =~= key_grabs(
            self.root,
            key_bindings@,
        ));
        let ghost grabs = plan.deep_view();
        plan.push(grab_button(self.root, MOVE_BUTTON));
        assert(plan.deep_view() =~= grabs.push(button_grab(self.root, MOVE_BUTTON)));
        plan.push(grab_button(self.root, RESIZE_BUTTON));
        plan.push(change_attribute(self.root, CW_EVENT_MASK, EVENT_MASK_SUBSTRUCTURE_NOTIFY));
        plan.push(Request::Flush);
        assert(plan.deep_view() =~= self.grab_requests(key_bindings@));
        plan
    }

    /// Publishing the workspaces: their number, and their names as one byte
    /// string with a zero byte between each two.
    pub open spec fn desktop_requests(&self, workspaces: Seq<Seq<char>>) -> Seq<RequestView> {
        seq![
            replace_words(
                self.root,
                self.id_of("_NET_NUMBER_OF_DESKTOPS"),
                ATOM_CARDINAL,
                seq![low_u32(workspaces.len() as int)],
            ),
            replace_bytes(
                self.root,
                self.id_of("_NET_DESKTOP_NAMES"),
                self.id_of("UTF8_STRING"),
                joined(encodings(workspaces), 0),
            ),
        ]
    }

    /// The requests that publish the number and the names of the workspaces.
    pub fn update_desktops(&self, workspaces: &[&str]) -> (plan: Vec<Request>)
        ensures
            plan.deep_view() == self.desktop_requests(workspaces.deep_view()),
    {
        let count = self.known_atom("_NET_NUMBER_OF_DESKTOPS", Ghost(12));
        let names = self.known_atom("_NET_DESKTOP_NAMES", Ghost(11));
        let utf8 = self.known_atom("UTF8_STRING", Ghost(1));
        let mut plan: Vec<Request> = Vec::new();
        plan.push(
            Request::replace_words(
                self.root,
                count,
                ATOM_CARDINAL,
                one_word(to_low_u32(workspaces.len())),
            ),
        );
        plan.push(Request::replace_bytes(self.root, names, utf8, join_utf8(workspaces, 0)));
        assert(plan.deep_view() =~= self.desktop_requests(workspaces.deep_view()));
        plan
    }

    /// Announcing a window manager: the hidden window and the root window
    /// both point at the hidden window and carry the window manager's name;
    /// the root window lists every atom of the atom list as supported; the
    /// workspaces are published; and the list of clients is cleared.
    pub open spec fn wm_property_requests(&self, workspaces: Seq<Seq<char>>) -> Seq<RequestView> {
        seq![
            replace_words(
                self.check_win,
                self.id_of("_NET_SUPPORTING_WM_CHECK"),
                ATOM_WINDOW,
                seq![self.check_win],
            ),
            replace_bytes(
                self.check_win,
                self.id_of("_NET_WM_NAME"),
                self.id_of("UTF8_STRING"),
                encode_utf8(WM_NAME@),
            ),
            replace_words(
                self.root,
                self.id_of("_NET_SUPPORTING_WM_CHECK"),
                ATOM_WINDOW,
                seq![self.check_win],
            ),
            replace_bytes(
                self.root,
                self.id_of("_NET_WM_NAME"),
                self.id_of("UTF8_STRING"),
                encode_utf8(WM_NAME@),
            ),
            replace_words(
                self.root,
                self.id_of("_NET_SUPPORTED"),
                ATOM_ATOM,
                resolved(self.atoms@, known_names()),
            ),
        ] + self.desktop_requests(workspaces) + seq![
            RequestView::DeleteProperty {
                window: self.root,
                property: self.id_of("_NET_CLIENT_LIST"),
            },
        ]
    }

    /// The requests that announce the window manager and its workspaces to
    /// other programs.
    pub fn set_wm_properties(&self, workspaces: &[&str]) -> (plan: Vec<Request>)
        ensures
            plan.deep_view() == self.wm_property_requests(workspaces.deep_view()),
    {
        let check = self.known_atom("_NET_SUPPORTING_WM_CHECK", Ghost(14));
        let wm_name = self.known_atom("_NET_WM_NAME", Ghost(20));
        let utf8 = self.known_atom("UTF8_STRING", Ghost(1));
        let supported = self.known_atom("_NET_SUPPORTED", Ghost(13));
        let client_list = self.known_atom("_NET_CLIENT_LIST", Ghost(9));
        let mut plan: Vec<Request> = Vec::new();
        plan.push(
            Request::replace_words(self.check_win, check, ATOM_WINDOW, one_word(self.check_win)),
        );
        plan.push(Request::replace_bytes(self.check_win, wm_name, utf8, WM_NAME.as_bytes_vec()));
        plan.push(Request::replace_words(self.root, check, ATOM_WINDOW, one_word(self.check_win)));
        plan.push(Request::replace_bytes(self.root, wm_name, utf8, WM_NAME.as_bytes_vec()));
        plan.push(Request::replace_words(self.root, supported, ATOM_ATOM, self.atoms.supported()));
        let mut desktops = self.update_desktops(workspaces);
        let ghost head = plan.deep_view();
        let ghost tail = desktops.deep_view();
        plan.append(&mut desktops);
        assert(plan.deep_view() =~= head + tail);
        plan.push(Request::DeleteProperty { window: self.root, property: client_list });
        assert(plan.deep_view() =~= self.wm_property_requests(workspaces.deep_view()));
        plan
    }

    /// The request that publishes workspace `wix` as the one shown.
    pub fn set_current_workspace(&self, wix: usize) -> (req: Request)
        ensures
            req.deep_view() == replace_words(
                self.root,
                self.id_of("_NET_CURRENT_DESKTOP"),
                ATOM_CARDINAL,
                seq![low_u32(wix as int)],
            ),
    {
        let prop = self.known_atom("_NET_CURRENT_DESKTOP", Ghost(10));
        Request::replace_words(self.root, prop, ATOM_CARDINAL, one_word(to_low_u32(wix)))
    }

    /// The request that names the root window.
    pub fn set_root_window_name(&self, name: &str) -> (req: Request)
        ensures
            req.deep_view() == replace_bytes(
                self.root,
                self.id_of("WM_NAME"),
                self.id_of("UTF8_STRING"),
                encode_utf8(name@),
            ),
    {
        let prop = self.known_atom("WM_NAME", Ghost(6));
        let utf8 = self.known_atom("UTF8_STRING", Ghost(1));
        Request::replace_bytes(self.root, prop, utf8, name.as_bytes_vec())
    }

    /// The request that publishes workspace `wix` as the one window `id` is
    /// on.
    pub fn set_client_workspace(&self, id: WinId, wix: usize) -> (req: Request)
        ensures
            req.deep_view() == replace_words(
                id,
                self.id_of("_NET_WM_DESKTOP"),
                ATOM_CARDINAL,
                seq![low_u32(wix as int)],
            ),
    {
        let prop = self.known_atom("_NET_WM_DESKTOP", Ghost(19));
        Request::replace_words(id, prop, ATOM_CARDINAL, one_word(to_low_u32(wix)))
    }

    /// The read of the pointer's position: it is asked of the root window.
    pub fn cursor_position_query(&self) -> (q: QueryPointer)
        ensures
            q == (QueryPointer { window: self.root }),
    {
        QueryPointer { window: self.root }
    }

    /// The read of the geometry of window `id`.
    pub fn window_geometry_query(&self, id: WinId) -> (q: GetGeometry)
        ensures
            q == (GetGeometry { drawable: id }),
    {
        GetGeometry { drawable: id }
    }

    /// The read of the windows that exist: the children of the root window.
    pub fn active_windows_query(&self) -> (q: QueryTree)
        ensures
            q == (QueryTree { window: self.root }),
    {
        QueryTree { window: self.root }
    }

    /// The read of the output controllers: it is asked of the check window.
    pub fn outputs_query(&self) -> (q: GetScreenResources)
        ensures
            q == (GetScreenResources { window: self.check_win }),
    {
        GetScreenResources { window: self.check_win }
    }

    /// The read of the output controller `crtc`, in whatever configuration
    /// it has now.
    pub fn crtc_query(&self, crtc: u32) -> (q: GetCrtcInfo)
        ensures
            q == (GetCrtcInfo { crtc, config_timestamp: CURRENT_TIME }),
    {
        GetCrtcInfo { crtc, config_timestamp: CURRENT_TIME }
    }

    /// The read of the window types of window `id`.
    pub fn window_type_query(&self, id: WinId) -> (q: GetProperty)
        ensures
            q == (GetProperty {
                delete: false,
                window: id,
                property: self.id_of("_NET_WM_WINDOW_TYPE"),
                ty: ATOM_ANY,
                long_offset: 0,
                long_length: WINDOW_TYPE_READ_LENGTH,
            }),
    {
        GetProperty {
            delete: false,
            window: id,
            property: self.known_atom("_NET_WM_WINDOW_TYPE", Ghost(23)),
            ty: ATOM_ANY,
            long_offset: 0,
            long_length: WINDOW_TYPE_READ_LENGTH,
        }
    }

    /// The read of property `name` of window `id`, for a text or an atom.
    /// Fails where `name` is not one of the atoms of this connection.
    pub fn property_query(&self, id: WinId, name: &str) -> (q: Result<GetProperty, PropError>)
        ensures
            known_names().contains(name@) ==> q == Ok::<GetProperty, PropError>(
                GetProperty {
                    delete: false,
                    window: id,
                    property: self.atoms@[name@],
                    ty: ATOM_ANY,
                    long_offset: 0,
                    long_length: PROPERTY_READ_LENGTH,
                },
            ),
            !known_names().contains(name@) ==> (q matches Err(
                PropError::UnknownAtom { name: n },
            ) && n@ == name@),
    {
        match self.atoms.find(name) {
            Some(property) => Ok(
                GetProperty {
                    delete: false,
                    window: id,
                    property,
                    ty: ATOM_ANY,
                    long_offset: 0,
                    long_length: PROPERTY_READ_LENGTH,
                },
            ),
            None => Err(PropError::UnknownAtom { name: String::from_str(name) }),
        }
    }

    /// Whether a window floats, from its class property and its window
    /// types, each `None` where it could not be read: it does if its class
    /// names one of `floating_classes`, or else if one of its types is a
    /// type that floats.
    pub fn window_should_float(
        &self,
        class: Option<&str>,
        types: Option<&[u32]>,
        floating_classes: &[&str],
    ) -> (float: bool)
        ensures
            float == should_float(
                text_of(class),
                types_of(types),
                floating_classes.deep_view(),
                self.auto_float_types(),
            ),
            (class matches Some(c) && has_piece_in(
                c@,
                CLASS_SEPARATOR,
                floating_classes.deep_view(),
            )) ==> float,
            (types matches Some(t) && t@ == seq![self.id_of("_NET_WM_WINDOW_TYPE_NOTIFICATION")])
                ==> float,
    {
        proof {
            lemma_notification_floats(*self, text_of(class), floating_classes.deep_view());
        }
        window_should_float(class, types, floating_classes, self.atoms.auto_float_types().as_slice())
    }

    /// Putting the pointer in the middle of a window, given with its
    /// geometry, or without one in the middle of the usable part of a
    /// screen. The position is cut down to the 16 bits the wire has for it.
    pub open spec fn warp_request(&self, target: Option<(WinId, Region)>, screen: Screen) -> RequestView {
        match target {
            Some((id, r)) => warp_to(id, r.w as int / 2, r.h as int / 2),
            None => {
                let e = screen.effective_region;
                warp_to(self.root, e.x + e.w as int / 2, e.y + e.h as int / 2)
            },
        }
    }

    /// The request that puts the pointer in the middle of the window
    /// `target`, given with its geometry, or in the middle of `screen`.
    pub fn warp_cursor(&self, target: Option<(WinId, Region)>, screen: &Screen) -> (req: Request)
        ensures
            req.deep_view() == self.warp_request(target, *screen),
    {
        let (x, y, id) = match target {
            Some((id, r)) => {
                let (_, _, w, h) = r.values();
                (to_low_i16((w / 2) as u64), to_low_i16((h / 2) as u64), id)
            },
            None => {
                let (x, y, w, h) = screen.effective_region.values();
                (
                    to_low_i16(x as u64 + (w / 2) as u64),
                    to_low_i16(y as u64 + (h / 2) as u64),
                    self.root,
                )
            },
        };
        Request::WarpPointer {
            src_window: NONE,
            dst_window: id,
            src_x: 0,
            src_y: 0,
            src_width: 0,
            src_height: 0,
            dst_x: x,
            dst_y: y,
        }
    }

    /// The windows to manage among the children of the root window, each
    /// given with the reply to the read of its types (`None` where the read
    /// failed): those that are neither dock nor toolbar, in the order given.
    pub fn query_for_active_windows(&self, children: &[(WinId, Option<Vec<u32>>)]) -> (ids: Vec<
        WinId,
    >)
        ensures
            ids@ == manageable(seen(children@), self.unmanaged_types()),
            children@.len() == 0 ==> ids@.len() == 0,
            forall|id: WinId|
                ids@.contains(id) <==> exists|i: int|
                    0 <= i < children@.len() && (#[trigger] seen(children@)[i]).0 == id
                        && !reply_has_type_in(seen(children@)[i].1, self.unmanaged_types()),
    {
        let mut dont_manage: Vec<u32> = Vec::new();
        dont_manage.push(self.known_atom("_NET_WM_WINDOW_TYPE_DOCK", Ghost(28)));
        dont_manage.push(self.known_atom("_NET_WM_WINDOW_TYPE_TOOLBAR", Ghost(29)));
        assert(dont_manage@ =~= self.unmanaged_types());
        manageable_windows(children, dont_manage.as_slice())
    }

    /// Giving back what was claimed: every key grab and every button grab on
    /// the root window is released, the hidden window is destroyed, and no
    /// window is published as active any more.
    pub open spec fn cleanup_requests(&self) -> Seq<RequestView> {
        seq![
            RequestView::UngrabKey { key: GRAB_ANY, grab_window: self.root, modifiers: MOD_MASK_ANY },
            RequestView::UngrabButton {
                button: BUTTON_INDEX_ANY,
                grab_window: self.root,
                modifiers: MOD_MASK_ANY,
            },
            RequestView::DestroyWindow { window: self.check_win },
            RequestView::DeleteProperty {
                window: self.root,
                property: self.id_of("_NET_ACTIVE_WINDOW"),
            },
        ]
    }

    /// The requests that end the session. They are to be sent once: after
    /// them the hidden window is gone, and sending them again would name a
    /// window that no longer exists.
    pub fn cleanup(&self) -> (plan: Vec<Request>)
        ensures
            plan.deep_view() == self.cleanup_requests(),
    {
        let active = self.known_atom("_NET_ACTIVE_WINDOW", Ghost(8));
        let mut plan: Vec<Request> = Vec::new();
        plan.push(
            Request::UngrabKey { key: GRAB_ANY, grab_window: self.root, modifiers: MOD_MASK_ANY },
        );
        plan.push(
            Request::UngrabButton {
                button: BUTTON_INDEX_ANY,
                grab_window: self.root,
                modifiers: MOD_MASK_ANY,
            },
        );
        plan.push(Request::DestroyWindow { window: self.check_win });
        plan.push(Request::DeleteProperty { window: self.root, property: active });
        assert(plan.deep_view() =~= self.cleanup_requests());
        plan
    }
}

/// A window whose only type is "notification" floats, whatever its class.
pub proof fn lemma_notification_floats(
    d: Driver,
    class: Option<Seq<char>>,
    floating: Seq<Seq<char>>,
)
    ensures
        should_float(
            class,
            Some(seq![d.id_of("_NET_WM_WINDOW_TYPE_NOTIFICATION")]),
            floating,
            d.auto_float_types(),
        ),
{
    let types = seq![d.id_of("_NET_WM_WINDOW_TYPE_NOTIFICATION")];
    assert(auto_float_names()[5] == "_NET_WM_WINDOW_TYPE_NOTIFICATION"@);
    assert(d.auto_float_types()[5] == types[0]);
}

/// A child of the root window that shows the dock type is not managed,
/// provided it is listed once.
pub proof fn lemma_dock_is_not_managed(
    d: Driver,
    children: Seq<(WinId, Option<Seq<u32>>)>,
    at: int,
)
    requires
        0 <= at < children.len(),
        children[at].1 matches Some(types) && types.contains(
            d.id_of("_NET_WM_WINDOW_TYPE_DOCK"),
        ),
        forall|j: int| 0 <= j < children.len() && children[j].0 == children[at].0 ==> j == at,
    ensures
        !manageable(children, d.unmanaged_types()).contains(children[at].0),
{
    let types = children[at].1->Some_0;
    let k = choose|k: int| 0 <= k < types.len() && types[k] == d.id_of("_NET_WM_WINDOW_TYPE_DOCK");
    assert(d.unmanaged_types()[0] == types[k]);
    assert(reply_has_type_in(children[at].1, d.unmanaged_types()));
    lemma_manageable_members(children, d.unmanaged_types(), children[at].0);
}

/// A child of the root window whose types are neither dock nor toolbar, or
/// whose types could not be read, is managed.
pub proof fn lemma_other_windows_are_managed(
    d: Driver,
    children: Seq<(WinId, Option<Seq<u32>>)>,
    at: int,
)
    requires
        0 <= at < children.len(),
        children[at].1 matches Some(types) ==> !types.contains(
            d.id_of("_NET_WM_WINDOW_TYPE_DOCK"),
        ) && !types.contains(d.id_of("_NET_WM_WINDOW_TYPE_TOOLBAR")),
    ensures
        manageable(children, d.unmanaged_types()).contains(children[at].0),
{
    lemma_manageable_members(children, d.unmanaged_types(), children[at].0);
}

/// A list of one number.
fn one_word(w: u32) -> (words: Vec<u32>)
    ensures
        words@ == seq![w],
{
    let mut words: Vec<u32> = Vec::new();
    words.push(w);
    words
}

/// The request that sets one attribute of a window.
fn change_attribute(window: WinId, attribute: u32, value: u32) -> (req: Request)
    ensures
        req.deep_view() == set_attribute(window, attribute, value),
{
    let mut values: Vec<(u32, u32)> = Vec::new();
    values.push((attribute, value));
    let req = Request::ChangeWindowAttributes { window, values };
    assert(req.deep_view()->ChangeWindowAttributes_values =~= seq![(attribute, value)]);
    req
}

/// The request that grabs a pointer button on a window.
fn grab_button(window: WinId, button: u8) -> (req: Request)
    ensures
        req.deep_view() == button_grab(window, button),
{
    Request::GrabButton {
        owner_events: false,
        grab_window: window,
        event_mask: MOUSE_MASK,
        pointer_mode: GRAB_MODE_ASYNC,
        keyboard_mode: GRAB_MODE_ASYNC,
        confine_to: NONE,
        cursor: NONE,
        button,
        modifiers: MOD_MASK_4,
    }
}

} // verus!
