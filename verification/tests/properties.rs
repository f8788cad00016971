use penrose::atoms::AtomTable;
use penrose::data_types::Region;
use penrose::driver::Driver;
use penrose::property::{atom_prop, str_prop, PropError};
use penrose::query::{tree_children, window_geometry, Geometry};
use penrose::request::GetProperty;

fn driver() -> Driver {
    let table = AtomTable::new((100..140).collect()).unwrap();
    Driver::new(1, 2, table, 89)
}

#[test]
fn str_prop_decodes_utf8() {
    assert_eq!(str_prop(Ok(b"xterm\0XTerm\0".to_vec())), Ok(String::from("xterm\0XTerm\0")));
    assert_eq!(str_prop(Ok(vec![])), Ok(String::new()));
    assert_eq!(str_prop(Ok(vec![0x63, 0x61, 0x66, 0xc3, 0xa9])), Ok(String::from("caf\u{e9}")));
}

#[test]
fn str_prop_refuses_what_is_not_utf8() {
    for bytes in [vec![0xff], vec![0x61, 0xc3], vec![0xc0, 0x80], vec![0xed, 0xa0, 0x80]] {
        match str_prop(Ok(bytes)) {
            Err(PropError::InvalidUtf8 { cause }) => assert!(!cause.is_empty()),
            other => panic!("expected an utf8 error, got {:?}", other),
        }
    }
}

#[test]
fn str_prop_passes_a_failed_round_trip_on() {
    assert_eq!(
        str_prop(Err(String::from("BadWindow"))),
        Err(PropError::Fetch { cause: String::from("BadWindow") })
    );
}

#[test]
fn atom_prop_takes_the_first_item() {
    assert_eq!(atom_prop(7, "_NET_WM_STATE", Ok(vec![321, 5, 6])), Ok(321));
    assert_eq!(atom_prop(7, "_NET_WM_STATE", Ok(vec![0])), Ok(0));
}

#[test]
fn atom_prop_treats_no_items_as_not_set() {
    assert_eq!(
        atom_prop(7, "_NET_WM_STATE", Ok(vec![])),
        Err(PropError::Empty { name: String::from("_NET_WM_STATE"), id: 7 })
    );
}

#[test]
fn atom_prop_passes_a_failed_round_trip_on() {
    assert_eq!(
        atom_prop(7, "_NET_WM_STATE", Err(String::from("gone"))),
        Err(PropError::Fetch { cause: String::from("gone") })
    );
}

#[test]
fn error_messages_name_the_cause() {
    assert_eq!(
        PropError::UnknownAtom { name: String::from("FOO") }.message(),
        "FOO is not a known atom"
    );
    assert_eq!(
        PropError::Fetch { cause: String::from("BadWindow") }.message(),
        "unable to fetch window property: BadWindow"
    );
    assert_eq!(
        PropError::InvalidUtf8 { cause: String::from("at byte 3") }.message(),
        "invalid utf8 resonse from xcb: at byte 3"
    );
    assert_eq!(
        PropError::Empty { name: String::from("WM_CLASS"), id: 4194305 }.message(),
        "property 'WM_CLASS' was empty for id: 4194305"
    );
    assert_eq!(
        PropError::Empty { name: String::new(), id: 0 }.message(),
        "property '' was empty for id: 0"
    );
}

#[test]
fn property_query_reads_four_kilobytes_of_a_known_property() {
    let d = driver();
    assert_eq!(
        d.property_query(9, "WM_CLASS"),
        Ok(GetProperty {
            delete: false,
            window: 9,
            property: 102,
            ty: 0,
            long_offset: 0,
            long_length: 1024,
        })
    );
}

#[test]
fn property_query_fails_on_an_unknown_name() {
    let d = driver();
    assert_eq!(
        d.property_query(9, "WM_KLASS"),
        Err(PropError::UnknownAtom { name: String::from("WM_KLASS") })
    );
}

#[test]
fn window_type_query_reads_eight_kilobytes() {
    let d = driver();
    assert_eq!(
        d.window_type_query(9),
        GetProperty {
            delete: false,
            window: 9,
            property: 123,
            ty: 0,
            long_offset: 0,
            long_length: 2048,
        }
    );
}

#[test]
fn window_geometry_widens_the_reply() {
    assert_eq!(
        window_geometry(Ok(Geometry { x: 3, y: -4, width: 500, height: 400 })),
        Ok(Region { x: 3, y: 0xffff_fffc, w: 500, h: 400 })
    );
    assert_eq!(
        window_geometry(Err(String::from("BadDrawable"))),
        Err(PropError::Fetch { cause: String::from("BadDrawable") })
    );
}

#[test]
fn a_failed_tree_query_lists_no_children() {
    assert_eq!(tree_children(None), Vec::<u32>::new());
    assert_eq!(tree_children(Some(vec![])), Vec::<u32>::new());
    assert_eq!(tree_children(Some(vec![9, 3, 5])), vec![9, 3, 5]);
    assert_eq!(driver().query_for_active_windows(&[]), Vec::<u32>::new());
}

#[test]
fn a_refused_text_is_reported_with_the_cause() {
    match str_prop(Ok(vec![0xff, 0xfe])) {
        Err(e) => {
            assert!(matches!(e, PropError::InvalidUtf8 { .. }));
            assert!(e.message().starts_with("invalid utf8 resonse from xcb: "));
            assert!(e.message().len() > "invalid utf8 resonse from xcb: ".len());
        }
        Ok(s) => panic!("accepted {:?}", s),
    }
}
