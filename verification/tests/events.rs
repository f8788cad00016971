use penrose::data_types::{widen, KeyCode, Point};
use penrose::event::{
    translate, CrossingFields, FocusFields, KeyFields, MapFields, RawEvent, XEvent, BUTTON_PRESS,
    BUTTON_RELEASE, DESTROY_NOTIFY, ENTER_NOTIFY, FOCUS_IN, FOCUS_OUT, KEY_PRESS, LEAVE_NOTIFY,
    MAP_NOTIFY, RANDR_NOTIFY, SCREEN_CHANGE_NOTIFY,
};

const RANDR_BASE: u8 = 89;

fn raw(tag: u8) -> RawEvent {
    RawEvent {
        response_type: tag,
        key: KeyFields { detail: 38, state: 64 },
        map: MapFields { window: 0x40_0001, override_redirect: true },
        crossing: CrossingFields { event: 0x40_0002, root_x: 700, root_y: -3, event_x: 12, event_y: 34 },
        focus: FocusFields { event: 0x40_0003 },
    }
}

#[test]
fn key_press_carries_key_and_modifiers() {
    assert_eq!(
        translate(&raw(KEY_PRESS), RANDR_BASE),
        Some(XEvent::KeyPress { code: KeyCode { mask: 64, code: 38 } })
    );
}

#[test]
fn map_notify_carries_window_and_override_redirect() {
    assert_eq!(
        translate(&raw(MAP_NOTIFY), RANDR_BASE),
        Some(XEvent::MapNotify { id: 0x40_0001, ignore: true })
    );
    let mut ev = raw(MAP_NOTIFY);
    ev.map.override_redirect = false;
    assert_eq!(translate(&ev, RANDR_BASE), Some(XEvent::MapNotify { id: 0x40_0001, ignore: false }));
}

#[test]
fn enter_and_leave_copy_both_positions() {
    let rpt = Point { x: 700, y: 0xffff_fffd };
    let wpt = Point { x: 12, y: 34 };
    assert_eq!(
        translate(&raw(ENTER_NOTIFY), RANDR_BASE),
        Some(XEvent::Enter { id: 0x40_0002, rpt, wpt })
    );
    assert_eq!(
        translate(&raw(LEAVE_NOTIFY), RANDR_BASE),
        Some(XEvent::Leave { id: 0x40_0002, rpt, wpt })
    );
}

#[test]
fn focus_events_carry_the_event_window() {
    assert_eq!(translate(&raw(FOCUS_IN), RANDR_BASE), Some(XEvent::FocusIn { id: 0x40_0003 }));
    assert_eq!(translate(&raw(FOCUS_OUT), RANDR_BASE), Some(XEvent::FocusOut { id: 0x40_0003 }));
}

#[test]
fn destroy_notify_carries_the_destroyed_window() {
    assert_eq!(translate(&raw(DESTROY_NOTIFY), RANDR_BASE), Some(XEvent::Destroy { id: 0x40_0001 }));
}

#[test]
fn screen_change_tag_gives_screen_change() {
    assert_eq!(translate(&raw(SCREEN_CHANGE_NOTIFY), RANDR_BASE), Some(XEvent::ScreenChange));
}

#[test]
fn button_events_are_dropped() {
    assert_eq!(translate(&raw(BUTTON_PRESS), RANDR_BASE), None);
    assert_eq!(translate(&raw(BUTTON_RELEASE), RANDR_BASE), None);
}

#[test]
fn randr_notify_wins_whatever_else_the_event_holds() {
    let tag = RANDR_BASE + RANDR_NOTIFY;
    assert_eq!(translate(&raw(tag), RANDR_BASE), Some(XEvent::RandrNotify));
    let mut other = raw(tag);
    other.key = KeyFields { detail: 0, state: 0xffff };
    other.map = MapFields { window: 0, override_redirect: false };
    other.crossing = CrossingFields { event: 9, root_x: -1, root_y: -1, event_x: -1, event_y: -1 };
    other.focus = FocusFields { event: u32::MAX };
    assert_eq!(translate(&other, RANDR_BASE), Some(XEvent::RandrNotify));
}

#[test]
fn randr_notify_is_tested_before_the_fixed_tags() {
    // With a base of 1 the notification shares its tag with the key press.
    assert_eq!(translate(&raw(KEY_PRESS), KEY_PRESS - RANDR_NOTIFY), Some(XEvent::RandrNotify));
    assert_eq!(translate(&raw(MAP_NOTIFY), MAP_NOTIFY - RANDR_NOTIFY), Some(XEvent::RandrNotify));
    assert_eq!(translate(&raw(BUTTON_PRESS), BUTTON_PRESS - RANDR_NOTIFY), Some(XEvent::RandrNotify));
}

#[test]
fn a_base_of_255_has_no_notification_tag() {
    assert_eq!(translate(&raw(0), 255), Some(XEvent::ScreenChange));
    assert_eq!(translate(&raw(255), 255), None);
}

#[test]
fn every_other_tag_gives_nothing() {
    let known = [
        KEY_PRESS,
        MAP_NOTIFY,
        ENTER_NOTIFY,
        LEAVE_NOTIFY,
        FOCUS_IN,
        FOCUS_OUT,
        DESTROY_NOTIFY,
        SCREEN_CHANGE_NOTIFY,
        RANDR_BASE + RANDR_NOTIFY,
    ];
    let mut silent = 0;
    for tag in 0..=255u8 {
        let ev = translate(&raw(tag), RANDR_BASE);
        if known.contains(&tag) {
            assert!(ev.is_some());
        } else {
            assert_eq!(ev, None);
            silent += 1;
        }
    }
    assert_eq!(silent, 256 - 9);
}

#[test]
fn tags_are_those_of_the_x_protocol() {
    assert_eq!(
        [KEY_PRESS, BUTTON_PRESS, BUTTON_RELEASE, ENTER_NOTIFY, LEAVE_NOTIFY, FOCUS_IN, FOCUS_OUT],
        [2, 4, 5, 7, 8, 9, 10]
    );
    assert_eq!([DESTROY_NOTIFY, MAP_NOTIFY, SCREEN_CHANGE_NOTIFY, RANDR_NOTIFY], [17, 19, 0, 1]);
}

#[test]
fn widen_sign_extends() {
    assert_eq!(widen(0), 0);
    assert_eq!(widen(1), 1);
    assert_eq!(widen(i16::MAX), 32767);
    assert_eq!(widen(-1), 0xffff_ffff);
    assert_eq!(widen(i16::MIN), 0xffff_8000);
    for v in [-20000i16, -300, -2, 5, 1234] {
        assert_eq!(widen(v), v as u32);
    }
}

#[test]
fn key_code_from_key_press_takes_state_as_mask() {
    assert_eq!(KeyCode::from_key_press(24, 0x40), KeyCode { mask: 0x40, code: 24 });
}
