use penrose::atoms::AtomTable;
use penrose::classify::{
    class_matches, has_type_in, manageable_windows, window_has_type_in, window_should_float,
};
use penrose::driver::Driver;

fn driver() -> Driver {
    let table = AtomTable::new((100..140).collect()).unwrap();
    Driver::new(1, 2, table, 89)
}

const DOCK: u32 = 128;
const TOOLBAR: u32 = 129;
const NOTIFICATION: u32 = 136;
const NORMAL: u32 = 139;

#[test]
fn class_matches_either_part_of_the_pair() {
    assert!(class_matches("xterm\0XTerm", &["XTerm"]));
    assert!(class_matches("xterm\0XTerm", &["xterm"]));
    assert!(class_matches("xterm\0XTerm\0", &["XTerm"]));
    assert!(class_matches("a\0b\0c", &["nope", "b"]));
    assert!(class_matches("dmenu", &["dmenu"]));
}

#[test]
fn class_matches_whole_parts_only() {
    assert!(!class_matches("xterm\0XTerm", &["XTer"]));
    assert!(!class_matches("xterm\0XTerm", &["term"]));
    assert!(!class_matches("xterm\0XTerm", &["xterm\0XTerm"]));
    assert!(!class_matches("xterm\0XTerm", &["XTERM"]));
    assert!(!class_matches("xterm\0XTerm", &[]));
    assert!(!class_matches("", &["x"]));
}

#[test]
fn empty_parts_are_parts_too() {
    assert!(class_matches("", &[""]));
    assert!(class_matches("xterm\0XTerm\0", &[""]));
    assert!(class_matches("\0x", &[""]));
    assert!(class_matches("a\0\0b", &[""]));
    assert!(!class_matches("xterm\0XTerm", &[""]));
}

#[test]
fn class_matches_handles_text_beyond_ascii() {
    assert!(class_matches("caf\u{e9}\0Caf\u{e9}", &["Caf\u{e9}"]));
    assert!(!class_matches("caf\u{e9}\0Caf\u{e9}", &["Cafe"]));
}

#[test]
fn has_type_in_is_list_intersection() {
    assert!(has_type_in(&[1, 2, 3], &[9, 3]));
    assert!(has_type_in(&[3], &[3]));
    assert!(!has_type_in(&[1, 2, 3], &[4, 5]));
    assert!(!has_type_in(&[], &[4, 5]));
    assert!(!has_type_in(&[1], &[]));
}

#[test]
fn floating_class_wins_over_a_tiled_type() {
    let d = driver();
    assert!(d.window_should_float(Some("gimp\0Gimp"), Some(&[NORMAL]), &["Gimp"]));
    assert!(d.window_should_float(Some("gimp\0Gimp"), None, &["Gimp"]));
    assert!(d.window_should_float(Some("gimp\0Gimp"), Some(&[]), &["Gimp"]));
    assert!(window_should_float(Some("gimp\0Gimp"), Some(&[7]), &["Gimp"], &[8]));
}

#[test]
fn notification_windows_float_without_a_floating_class() {
    let d = driver();
    assert!(d.window_should_float(Some("dunst\0Dunst"), Some(&[NOTIFICATION]), &["Gimp"]));
    assert!(d.window_should_float(None, Some(&[NOTIFICATION]), &[]));
}

#[test]
fn every_auto_float_type_floats() {
    let d = driver();
    for t in [127u32, 133, 128, 134, 130, 136, 135, 132, 129, 131] {
        assert!(d.window_should_float(Some("a\0A"), Some(&[NORMAL, t]), &["B"]));
    }
}

#[test]
fn other_windows_are_tiled() {
    let d = driver();
    assert!(!d.window_should_float(Some("xterm\0XTerm"), Some(&[NORMAL]), &["Gimp"]));
    assert!(!d.window_should_float(Some("xterm\0XTerm"), None, &["Gimp"]));
    assert!(!d.window_should_float(None, None, &["Gimp"]));
    assert!(!d.window_should_float(None, Some(&[]), &["Gimp"]));
    // the first spelling of the dialog type lost its identifier to the second
    assert!(!d.window_should_float(None, Some(&[124]), &[]));
    assert!(!window_should_float(Some("a"), Some(&[1]), &["b"], &[2]));
}

#[test]
fn window_has_type_in_treats_a_failed_read_as_no_type() {
    assert!(window_has_type_in(Some(&[DOCK]), &[DOCK, TOOLBAR]));
    assert!(!window_has_type_in(Some(&[NORMAL]), &[DOCK, TOOLBAR]));
    assert!(!window_has_type_in(None, &[DOCK, TOOLBAR]));
}

#[test]
fn docks_and_toolbars_are_not_managed() {
    let d = driver();
    let children = vec![
        (10, Some(vec![DOCK])),
        (11, Some(vec![NORMAL])),
        (12, Some(vec![NORMAL, TOOLBAR])),
        (13, None),
        (14, Some(vec![])),
        (15, Some(vec![NOTIFICATION])),
    ];
    assert_eq!(d.query_for_active_windows(&children), vec![11, 13, 14, 15]);
}

#[test]
fn a_dock_is_left_out_and_its_sibling_kept() {
    let d = driver();
    let children = vec![(20, Some(vec![DOCK])), (21, Some(vec![NORMAL]))];
    assert_eq!(d.query_for_active_windows(&children), vec![21]);
    assert_eq!(d.query_for_active_windows(&[]), Vec::<u32>::new());
}

#[test]
fn manageable_windows_keeps_the_order_given() {
    let windows = vec![(3, None), (1, Some(vec![5])), (2, Some(vec![6])), (9, Some(vec![7, 5]))];
    assert_eq!(manageable_windows(&windows, &[5]), vec![3, 2]);
    assert_eq!(manageable_windows(&windows, &[]), vec![3, 1, 2, 9]);
}
