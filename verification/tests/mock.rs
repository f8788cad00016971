use penrose::data_types::{KeyCode, Point, Region};
use penrose::event::XEvent;
use penrose::screen::Screen;
use penrose::xconnection::{MockXConn, XConn};

fn screens() -> Vec<Screen> {
    let a = Region::new(0, 0, 1920, 1080);
    let b = Region::new(1920, 0, 1280, 1024);
    vec![
        Screen { true_region: a, effective_region: a, wix: 0 },
        Screen { true_region: b, effective_region: Region::new(1920, 18, 1280, 1006), wix: 1 },
    ]
}

#[test]
fn scripted_events_come_out_in_order_and_then_none() {
    let k = KeyCode { mask: 64, code: 38 };
    let mut conn = MockXConn::new(vec![], vec![XEvent::KeyPress { code: k }, XEvent::ScreenChange]);
    assert_eq!(conn.wait_for_event(), Some(XEvent::KeyPress { code: k }));
    assert_eq!(conn.wait_for_event(), Some(XEvent::ScreenChange));
    assert_eq!(conn.wait_for_event(), None);
    assert_eq!(conn.wait_for_event(), None);
}

#[test]
fn an_empty_script_yields_nothing() {
    let mut conn = MockXConn::new(screens(), vec![]);
    assert_eq!(conn.wait_for_event(), None);
    assert_eq!(conn.wait_for_event(), None);
}

#[test]
fn repeated_events_are_delivered_one_by_one() {
    let e = XEvent::Destroy { id: 3 };
    let mut conn = MockXConn::new(vec![], vec![e, e, XEvent::ButtonPress, XEvent::ButtonRelease]);
    assert_eq!(conn.wait_for_event(), Some(e));
    assert_eq!(conn.wait_for_event(), Some(e));
    assert_eq!(conn.wait_for_event(), Some(XEvent::ButtonPress));
    assert_eq!(conn.wait_for_event(), Some(XEvent::ButtonRelease));
    assert_eq!(conn.wait_for_event(), None);
}

#[test]
fn focused_client_is_the_window_focused_last() {
    let mut conn = MockXConn::new(vec![], vec![]);
    assert_eq!(conn.focused_client(), 0);
    conn.focus_client(42);
    assert_eq!(conn.focused_client(), 42);
    assert_eq!(conn.focused_client(), 42);
    conn.focus_client(7);
    assert_eq!(conn.focused_client(), 7);
    conn.focus_client(0);
    assert_eq!(conn.focused_client(), 0);
}

#[test]
fn focus_and_events_do_not_disturb_each_other() {
    let mut conn = MockXConn::new(screens(), vec![XEvent::FocusIn { id: 5 }, XEvent::RandrNotify]);
    conn.focus_client(5);
    assert_eq!(conn.wait_for_event(), Some(XEvent::FocusIn { id: 5 }));
    assert_eq!(conn.focused_client(), 5);
    conn.focus_client(6);
    assert_eq!(conn.wait_for_event(), Some(XEvent::RandrNotify));
    assert_eq!(conn.focused_client(), 6);
    assert_eq!(conn.current_outputs(), screens());
}

#[test]
fn current_outputs_returns_the_screens_given() {
    let conn = MockXConn::new(screens(), vec![]);
    assert_eq!(conn.current_outputs(), screens());
    assert_eq!(conn.current_outputs(), screens());
    assert_eq!(MockXConn::new(vec![], vec![]).current_outputs(), vec![]);
}

#[test]
fn the_stand_in_answers_without_a_server() {
    let conn = MockXConn::new(screens(), vec![]);
    assert!(conn.flush());
    assert_eq!(conn.cursor_position(), Point { x: 0, y: 0 });
    assert!(conn.window_should_float(1, &["anything"]));
    assert!(conn.window_should_float(2, &[]));
    assert_eq!(conn.query_for_active_windows(), Vec::<u32>::new());
    assert_eq!(conn.str_prop(1, "WM_CLASS"), Ok(String::from("WM_CLASS")));
    assert_eq!(conn.str_prop(1, "not an atom"), Ok(String::from("not an atom")));
    assert_eq!(conn.atom_prop(99, "WM_STATE"), Ok(99));
}

#[test]
fn writes_to_the_stand_in_change_nothing() {
    let mut conn = MockXConn::new(screens(), vec![XEvent::ScreenChange]);
    conn.focus_client(3);
    conn.position_window(1, Region::new(1, 2, 3, 4), 2);
    conn.mark_new_window(1);
    conn.map_window(1);
    conn.unmap_window(1);
    conn.send_client_event(1, "WM_DELETE_WINDOW");
    conn.set_client_border_color(1, 0xff);
    conn.grab_keys(&vec![KeyCode { mask: 1, code: 2 }]);
    conn.set_wm_properties(&["1"]);
    conn.update_desktops(&["1"]);
    conn.set_current_workspace(0);
    conn.set_root_window_name("x");
    conn.set_client_workspace(1, 0);
    conn.warp_cursor(Some(1), &screens()[0]);
    conn.warp_cursor(None, &screens()[0]);
    conn.cleanup();
    assert_eq!(conn.focused_client(), 3);
    assert_eq!(conn.current_outputs(), screens());
    assert_eq!(conn.wait_for_event(), Some(XEvent::ScreenChange));
    assert_eq!(conn.wait_for_event(), None);
}
