use penrose::atoms::AtomTable;
use penrose::data_types::{KeyCode, Region};
use penrose::driver::{Driver, WM_NAME};
use penrose::event::{CrossingFields, FocusFields, KeyFields, MapFields, RawEvent, XEvent};
use penrose::request::{
    GetCrtcInfo, GetGeometry, GetScreenResources, PropertyValue, QueryPointer, QueryTree, Request,
};
use penrose::screen::Screen;

const ROOT: u32 = 1;
const CHECK: u32 = 2;

fn session() -> Driver {
    let table = AtomTable::new((100..140).collect()).unwrap();
    Driver::new(ROOT, CHECK, table, 89)
}

fn words(window: u32, property: u32, ty: u32, data: Vec<u32>) -> Request {
    Request::ChangeProperty { mode: 0, window, property, ty, value: PropertyValue::Words(data) }
}

fn bytes(window: u32, property: u32, ty: u32, data: &[u8]) -> Request {
    Request::ChangeProperty {
        mode: 0,
        window,
        property,
        ty,
        value: PropertyValue::Bytes(data.to_vec()),
    }
}

fn warp(dst_window: u32, dst_x: i16, dst_y: i16) -> Request {
    Request::WarpPointer {
        src_window: 0,
        dst_window,
        src_x: 0,
        src_y: 0,
        src_width: 0,
        src_height: 0,
        dst_x,
        dst_y,
    }
}

fn button(button: u8) -> Request {
    Request::GrabButton {
        owner_events: false,
        grab_window: ROOT,
        event_mask: 4 | 8 | 64,
        pointer_mode: 1,
        keyboard_mode: 1,
        confine_to: 0,
        cursor: 0,
        button,
        modifiers: 64,
    }
}

#[test]
fn driver_keeps_what_it_was_made_of() {
    let d = session();
    assert_eq!((d.root, d.check_win, d.randr_base), (ROOT, CHECK, 89));
    assert_eq!(d.atoms.atom("MANAGER"), 100);
}

#[test]
fn driver_translates_with_its_own_randr_base() {
    let d = session();
    let mut raw = RawEvent {
        response_type: 90,
        key: KeyFields { detail: 1, state: 2 },
        map: MapFields { window: 3, override_redirect: false },
        crossing: CrossingFields { event: 4, root_x: 5, root_y: 6, event_x: 7, event_y: 8 },
        focus: FocusFields { event: 9 },
    };
    assert_eq!(d.wait_for_event(&raw), Some(XEvent::RandrNotify));
    raw.response_type = 9;
    assert_eq!(d.wait_for_event(&raw), Some(XEvent::FocusIn { id: 9 }));
    raw.response_type = 91;
    assert_eq!(d.wait_for_event(&raw), None);
}

#[test]
fn position_window_configures_place_size_border_and_stacking() {
    assert_eq!(
        session().position_window(7, Region::new(10, 20, 300, 400), 2),
        Request::ConfigureWindow {
            window: 7,
            values: vec![(1, 10), (2, 20), (4, 300), (8, 400), (16, 2), (64, 0)],
        }
    );
}

#[test]
fn mark_new_window_asks_for_enter_and_leave() {
    assert_eq!(
        session().mark_new_window(7),
        Request::ChangeWindowAttributes { window: 7, values: vec![(2048, 16 | 32)] }
    );
}

#[test]
fn map_and_unmap_name_the_window() {
    assert_eq!(session().map_window(7), Request::MapWindow { window: 7 });
    assert_eq!(session().unmap_window(8), Request::UnmapWindow { window: 8 });
}

#[test]
fn send_client_event_wraps_the_atom_in_a_protocols_message() {
    assert_eq!(
        session().send_client_event(7, "WM_DELETE_WINDOW"),
        Request::SendClientMessage {
            propagate: false,
            destination: 7,
            event_mask: 0,
            format: 32,
            window: 7,
            message_type: 104,
            data: (103, 0, 0, 0, 0),
        }
    );
    assert_eq!(
        session().send_client_event(9, "WM_TAKE_FOCUS"),
        Request::SendClientMessage {
            propagate: false,
            destination: 9,
            event_mask: 0,
            format: 32,
            window: 9,
            message_type: 104,
            data: (107, 0, 0, 0, 0),
        }
    );
}

#[test]
fn focus_client_sets_focus_and_publishes_the_active_window() {
    assert_eq!(
        session().focus_client(7),
        vec![
            Request::SetInputFocus { revert_to: 2, focus: 7, time: 0 },
            words(ROOT, 108, 33, vec![7]),
        ]
    );
}

#[test]
fn set_client_border_color_sets_the_border_pixel() {
    assert_eq!(
        session().set_client_border_color(7, 0xff0000),
        Request::ChangeWindowAttributes { window: 7, values: vec![(8, 0xff0000)] }
    );
}

#[test]
fn grab_keys_grabs_keys_then_buttons_then_listens_and_flushes() {
    let keys = vec![KeyCode { mask: 64, code: 38 }, KeyCode { mask: 65, code: 24 }];
    assert_eq!(
        session().grab_keys(&keys),
        vec![
            Request::GrabKey {
                owner_events: false,
                grab_window: ROOT,
                modifiers: 64,
                key: 38,
                pointer_mode: 1,
                keyboard_mode: 1,
            },
            Request::GrabKey {
                owner_events: false,
                grab_window: ROOT,
                modifiers: 65,
                key: 24,
                pointer_mode: 1,
                keyboard_mode: 1,
            },
            button(1),
            button(3),
            Request::ChangeWindowAttributes { window: ROOT, values: vec![(2048, 524288)] },
            Request::Flush,
        ]
    );
}

#[test]
fn grab_keys_without_bindings_still_grabs_the_buttons() {
    assert_eq!(
        session().grab_keys(&[]),
        vec![
            button(1),
            button(3),
            Request::ChangeWindowAttributes { window: ROOT, values: vec![(2048, 524288)] },
            Request::Flush,
        ]
    );
}

#[test]
fn update_desktops_publishes_count_and_names() {
    assert_eq!(
        session().update_desktops(&["1", "2", "web"]),
        vec![words(ROOT, 112, 6, vec![3]), bytes(ROOT, 111, 101, b"1\x002\x00web")]
    );
    assert_eq!(
        session().update_desktops(&[]),
        vec![words(ROOT, 112, 6, vec![0]), bytes(ROOT, 111, 101, b"")]
    );
}

#[test]
fn set_wm_properties_announces_the_window_manager() {
    let mut supported: Vec<u32> = (100..140).collect();
    supported[24] = 133;
    assert_eq!(WM_NAME, "penrose");
    assert_eq!(
        session().set_wm_properties(&["main", "mail"]),
        vec![
            words(CHECK, 114, 33, vec![CHECK]),
            bytes(CHECK, 120, 101, b"penrose"),
            words(ROOT, 114, 33, vec![CHECK]),
            bytes(ROOT, 120, 101, b"penrose"),
            words(ROOT, 113, 4, supported),
            words(ROOT, 112, 6, vec![2]),
            bytes(ROOT, 111, 101, b"main\0mail"),
            Request::DeleteProperty { window: ROOT, property: 109 },
        ]
    );
}

#[test]
fn set_current_workspace_publishes_the_index() {
    assert_eq!(session().set_current_workspace(3), words(ROOT, 110, 6, vec![3]));
    assert_eq!(session().set_current_workspace(0), words(ROOT, 110, 6, vec![0]));
}

#[test]
fn set_root_window_name_writes_the_name_as_utf8() {
    assert_eq!(session().set_root_window_name("status"), bytes(ROOT, 106, 101, b"status"));
    assert_eq!(
        session().set_root_window_name("caf\u{e9}"),
        bytes(ROOT, 106, 101, &[0x63, 0x61, 0x66, 0xc3, 0xa9])
    );
}

#[test]
fn set_client_workspace_writes_on_the_client() {
    assert_eq!(session().set_client_workspace(7, 4), words(7, 119, 6, vec![4]));
}

#[test]
fn property_writes_replace_and_never_append() {
    let d = session();
    let mut all = d.set_wm_properties(&["a"]);
    all.extend(d.focus_client(3));
    all.push(d.set_current_workspace(1));
    all.push(d.set_root_window_name("x"));
    all.push(d.set_client_workspace(3, 1));
    let mut seen = 0;
    for r in all {
        if let Request::ChangeProperty { mode, value, .. } = r {
            assert_eq!(mode, 0);
            assert!(value.format() == 8 || value.format() == 32);
            seen += 1;
        }
    }
    assert_eq!(seen, 11);
}

#[test]
fn property_value_format_is_the_item_width() {
    assert_eq!(PropertyValue::Bytes(vec![1]).format(), 8);
    assert_eq!(PropertyValue::Words(vec![1]).format(), 32);
    assert_eq!(Request::replace_words(1, 2, 3, vec![4]), words(1, 2, 3, vec![4]));
    assert_eq!(Request::replace_bytes(1, 2, 3, vec![4]), bytes(1, 2, 3, &[4]));
}

#[test]
fn warp_cursor_goes_to_the_middle_of_the_window() {
    let screen = Screen {
        true_region: Region::new(0, 0, 1920, 1080),
        effective_region: Region::new(0, 18, 1920, 1062),
        wix: 0,
    };
    assert_eq!(
        session().warp_cursor(Some((7, Region::new(500, 600, 101, 51))), &screen),
        warp(7, 50, 25)
    );
}

#[test]
fn warp_cursor_without_window_goes_to_the_middle_of_the_screen() {
    let screen = Screen {
        true_region: Region::new(1920, 0, 1280, 1024),
        effective_region: Region::new(1920, 18, 1280, 1006),
        wix: 1,
    };
    assert_eq!(session().warp_cursor(None, &screen), warp(ROOT, 2560, 521));
}

#[test]
fn warp_cursor_cuts_the_position_down_to_sixteen_bits() {
    let far = Screen {
        true_region: Region::new(0, 0, 1, 1),
        effective_region: Region::new(65000, 40000, 2000, 0),
        wix: 0,
    };
    assert_eq!(session().warp_cursor(None, &far), warp(ROOT, 464, -25536));
    let edge = Screen {
        true_region: Region::new(0, 0, 1, 1),
        effective_region: Region::new(u32::MAX, u32::MAX, u32::MAX, 2),
        wix: 0,
    };
    assert_eq!(session().warp_cursor(None, &edge), warp(ROOT, -2, 0));
    assert_eq!(
        session().warp_cursor(Some((7, Region::new(0, 0, 65536 * 2 + 10, 65534))), &edge),
        warp(7, 5, 32767)
    );
}

#[test]
fn reads_are_asked_of_the_right_windows() {
    let d = session();
    assert_eq!(d.cursor_position_query(), QueryPointer { window: ROOT });
    assert_eq!(d.active_windows_query(), QueryTree { window: ROOT });
    assert_eq!(d.outputs_query(), GetScreenResources { window: CHECK });
    assert_eq!(d.crtc_query(63), GetCrtcInfo { crtc: 63, config_timestamp: 0 });
    assert_eq!(d.window_geometry_query(7), GetGeometry { drawable: 7 });
}

#[test]
fn cleanup_releases_keys_destroys_the_check_window_and_clears_the_active_window() {
    assert_eq!(
        session().cleanup(),
        vec![
            Request::UngrabKey { key: 0, grab_window: ROOT, modifiers: 32768 },
            Request::UngrabButton { button: 0, grab_window: ROOT, modifiers: 32768 },
            Request::DestroyWindow { window: CHECK },
            Request::DeleteProperty { window: ROOT, property: 108 },
        ]
    );
}
