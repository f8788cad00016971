use penrose::atoms::{atom_names, auto_float_window_types, AtomTable, ATOM_COUNT, AUTO_FLOAT_COUNT};

fn ids() -> Vec<u32> {
    (0..ATOM_COUNT as u32).map(|i| 100 + i).collect()
}

#[test]
fn atom_list_is_the_fixed_one() {
    let names = atom_names();
    assert_eq!(names.len(), ATOM_COUNT);
    assert_eq!(names.len(), 40);
    assert_eq!(names[0], "MANAGER");
    assert_eq!(names[1], "UTF8_STRING");
    assert_eq!(names[4], "WM_PROTOCOLS");
    assert_eq!(names[8], "_NET_ACTIVE_WINDOW");
    assert_eq!(names[23], "_NET_WM_WINDOW_TYPE");
    assert_eq!(names[24], "_NET_WM_WINDOW_TYPE_DIALOG");
    assert_eq!(names[33], "_NET_WM_WINDOW_TYPE_DIALOG");
    assert_eq!(names[39], "_NET_WM_WINDOW_TYPE_NORMAL");
    let mut distinct: Vec<&str> = names.clone();
    distinct.sort();
    distinct.dedup();
    assert_eq!(distinct.len(), 39);
}

#[test]
fn auto_float_types_are_the_ten_named() {
    let names = auto_float_window_types();
    assert_eq!(names.len(), AUTO_FLOAT_COUNT);
    assert_eq!(
        names,
        vec![
            "_NET_WM_WINDOW_TYPE_DESKTOP",
            "_NET_WM_WINDOW_TYPE_DIALOG",
            "_NET_WM_WINDOW_TYPE_DOCK",
            "_NET_WM_WINDOW_TYPE_DROPDOWN_MENU",
            "_NET_WM_WINDOW_TYPE_MENU",
            "_NET_WM_WINDOW_TYPE_NOTIFICATION",
            "_NET_WM_WINDOW_TYPE_POPUP_MENU",
            "_NET_WM_WINDOW_TYPE_SPLASH",
            "_NET_WM_WINDOW_TYPE_TOOLBAR",
            "_NET_WM_WINDOW_TYPE_UTILITY",
        ]
    );
    let known = atom_names();
    for n in names {
        assert!(known.contains(&n));
    }
}

#[test]
fn table_needs_one_identifier_per_name() {
    assert!(AtomTable::new(vec![]).is_none());
    assert!(AtomTable::new(vec![1; 39]).is_none());
    assert!(AtomTable::new(vec![1; 41]).is_none());
    assert!(AtomTable::new(vec![1; 40]).is_some());
}

#[test]
fn every_listed_name_resolves_and_keeps_resolving() {
    let table = AtomTable::new(ids()).unwrap();
    for (i, name) in atom_names().iter().enumerate() {
        let expected = if i == 24 { 133 } else { 100 + i as u32 };
        assert_eq!(table.find(name), Some(expected));
        assert_eq!(table.atom(name), expected);
        assert_eq!(table.atom(name), table.atom(name));
        assert_ne!(table.atom(name), 0);
    }
}

#[test]
fn a_name_listed_twice_keeps_its_last_identifier() {
    let table = AtomTable::new(ids()).unwrap();
    assert_eq!(table.atom("_NET_WM_WINDOW_TYPE_DIALOG"), 133);
}

#[test]
fn unknown_names_are_not_found() {
    let table = AtomTable::new(ids()).unwrap();
    assert_eq!(table.find("NOT_AN_ATOM"), None);
    assert_eq!(table.find(""), None);
    assert_eq!(table.find("MANAGE"), None);
    assert_eq!(table.find("MANAGERS"), None);
    assert_eq!(table.find("manager"), None);
}

#[test]
fn auto_float_identifiers_follow_the_names() {
    let table = AtomTable::new(ids()).unwrap();
    assert_eq!(
        table.auto_float_types(),
        &vec![127, 133, 128, 134, 130, 136, 135, 132, 129, 131]
    );
}

#[test]
fn supported_lists_every_place_of_the_list() {
    let table = AtomTable::new(ids()).unwrap();
    let mut expected = ids();
    expected[24] = 133;
    assert_eq!(table.supported(), expected);
}
