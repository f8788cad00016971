//! The atoms this layer uses: named identifiers that the server hands out
//! once per connection and that label properties, types and messages.
use vstd::pervasive::unreached;
use vstd::prelude::*;
use crate::text::str_eq;

verus! {

/// How many names the atom list has. One name stands in it twice.
pub const ATOM_COUNT: usize = 40;

/// How many window types make a window float.
pub const AUTO_FLOAT_COUNT: usize = 10;

/// The name at each place of the atom list.
pub open spec fn atom_name_at(i: int) -> Seq<char> {
    if i == 0 {
        "MANAGER"@
    } else if i == 1 {
        "UTF8_STRING"@
    } else if i == 2 {
        "WM_CLASS"@
    } else if i == 3 {
        "WM_DELETE_WINDOW"@
    } else if i == 4 {
        "WM_PROTOCOLS"@
    } else if i == 5 {
        "WM_STATE"@
    } else if i == 6 {
        "WM_NAME"@
    } else if i == 7 {
        "WM_TAKE_FOCUS"@
    } else if i == 8 {
        "_NET_ACTIVE_WINDOW"@
    } else if i == 9 {
        "_NET_CLIENT_LIST"@
    } else if i == 10 {
        "_NET_CURRENT_DESKTOP"@
    } else if i == 11 {
        "_NET_DESKTOP_NAMES"@
    } else if i == 12 {
        "_NET_NUMBER_OF_DESKTOPS"@
    } else if i == 13 {
        "_NET_SUPPORTED"@
    } else if i == 14 {
        "_NET_SUPPORTING_WM_CHECK"@
    } else if i == 15 {
        "_NET_SYSTEM_TRAY_OPCODE"@
    } else if i == 16 {
        "_NET_SYSTEM_TRAY_ORIENTATION"@
    } else if i == 17 {
        "_NET_SYSTEM_TRAY_ORIENTATION_HORZ"@
    } else if i == 18 {
        "_NET_SYSTEM_TRAY_S0"@
    } else if i == 19 {
        "_NET_WM_DESKTOP"@
    } else if i == 20 {
        "_NET_WM_NAME"@
    } else if i == 21 {
        "_NET_WM_STATE"@
    } else if i == 22 {
        "_NET_WM_STATE_FULLSCREEN"@
    } else if i == 23 {
        "_NET_WM_WINDOW_TYPE"@
    } else if i == 24 {
        "_NET_WM_WINDOW_TYPE_DIALOG"@
    } else if i == 25 {
        "_XEMBED"@
    } else if i == 26 {
        "_XEMBED_INFO"@
    } else if i == 27 {
        "_NET_WM_WINDOW_TYPE_DESKTOP"@
    } else if i == 28 {
        "_NET_WM_WINDOW_TYPE_DOCK"@
    } else if i == 29 {
        "_NET_WM_WINDOW_TYPE_TOOLBAR"@
    } else if i == 30 {
        "_NET_WM_WINDOW_TYPE_MENU"@
    } else if i == 31 {
        "_NET_WM_WINDOW_TYPE_UTILITY"@
    } else if i == 32 {
        "_NET_WM_WINDOW_TYPE_SPLASH"@
    } else if i == 33 {
        "_NET_WM_WINDOW_TYPE_DIALOG"@
    } else if i == 34 {
        "_NET_WM_WINDOW_TYPE_DROPDOWN_MENU"@
    } else if i == 35 {
        "_NET_WM_WINDOW_TYPE_POPUP_MENU"@
    } else if i == 36 {
        "_NET_WM_WINDOW_TYPE_NOTIFICATION"@
    } else if i == 37 {
        "_NET_WM_WINDOW_TYPE_COMBO"@
    } else if i == 38 {
        "_NET_WM_WINDOW_TYPE_DND"@
    } else {
        "_NET_WM_WINDOW_TYPE_NORMAL"@
    }
}

/// The names of the atoms resolved when a connection is set up, in the
/// order in which they are resolved.
pub open spec fn known_names() -> Seq<Seq<char>> {
    Seq::new(ATOM_COUNT as nat, |i: int| atom_name_at(i))
}

/// The name at each place of the list of window types that float.
pub open spec fn auto_float_name_at(i: int) -> Seq<char> {
    if i == 0 {
        "_NET_WM_WINDOW_TYPE_DESKTOP"@
    } else if i == 1 {
        "_NET_WM_WINDOW_TYPE_DIALOG"@
    } else if i == 2 {
        "_NET_WM_WINDOW_TYPE_DOCK"@
    } else if i == 3 {
        "_NET_WM_WINDOW_TYPE_DROPDOWN_MENU"@
    } else if i == 4 {
        "_NET_WM_WINDOW_TYPE_MENU"@
    } else if i == 5 {
        "_NET_WM_WINDOW_TYPE_NOTIFICATION"@
    } else if i == 6 {
        "_NET_WM_WINDOW_TYPE_POPUP_MENU"@
    } else if i == 7 {
        "_NET_WM_WINDOW_TYPE_SPLASH"@
    } else if i == 8 {
        "_NET_WM_WINDOW_TYPE_TOOLBAR"@
    } else {
        "_NET_WM_WINDOW_TYPE_UTILITY"@
    }
}

/// The names of the window types whose windows float: desktop, dialog, dock,
/// the menus, notification, splash, toolbar and utility.
pub open spec fn auto_float_names() -> Seq<Seq<char>> {
    Seq::new(AUTO_FLOAT_COUNT as nat, |i: int| auto_float_name_at(i))
}

/// The atom names, in the order in which a connection resolves them.
pub fn atom_names() -> (names: Vec<&'static str>)
    ensures
        names@.len() == ATOM_COUNT,
        forall|i: int| 0 <= i < ATOM_COUNT ==> (#[trigger] names@[i])@ == known_names()[i],
{
    let names = vec![
        "MANAGER",
        "UTF8_STRING",
        "WM_CLASS",
        "WM_DELETE_WINDOW",
        "WM_PROTOCOLS",
        "WM_STATE",
        "WM_NAME",
        "WM_TAKE_FOCUS",
        "_NET_ACTIVE_WINDOW",
        "_NET_CLIENT_LIST",
        "_NET_CURRENT_DESKTOP",
        "_NET_DESKTOP_NAMES",
        "_NET_NUMBER_OF_DESKTOPS",
        "_NET_SUPPORTED",
        "_NET_SUPPORTING_WM_CHECK",
        "_NET_SYSTEM_TRAY_OPCODE",
        "_NET_SYSTEM_TRAY_ORIENTATION",
        "_NET_SYSTEM_TRAY_ORIENTATION_HORZ",
        "_NET_SYSTEM_TRAY_S0",
        "_NET_WM_DESKTOP",
        "_NET_WM_NAME",
        "_NET_WM_STATE",
        "_NET_WM_STATE_FULLSCREEN",
        "_NET_WM_WINDOW_TYPE",
        "_NET_WM_WINDOW_TYPE_DIALOG",
        "_XEMBED",
        "_XEMBED_INFO",
        "_NET_WM_WINDOW_TYPE_DESKTOP",
        "_NET_WM_WINDOW_TYPE_DOCK",
        "_NET_WM_WINDOW_TYPE_TOOLBAR",
        "_NET_WM_WINDOW_TYPE_MENU",
        "_NET_WM_WINDOW_TYPE_UTILITY",
        "_NET_WM_WINDOW_TYPE_SPLASH",
        "_NET_WM_WINDOW_TYPE_DIALOG",
        "_NET_WM_WINDOW_TYPE_DROPDOWN_MENU",
        "_NET_WM_WINDOW_TYPE_POPUP_MENU",
        "_NET_WM_WINDOW_TYPE_NOTIFICATION",
        "_NET_WM_WINDOW_TYPE_COMBO",
        "_NET_WM_WINDOW_TYPE_DND",
        "_NET_WM_WINDOW_TYPE_NORMAL",
    ];
    assert(names@.len() == ATOM_COUNT);
    assert forall|i: int| 0 <= i < ATOM_COUNT implies (#[trigger] names@[i])@ == known_names()[i] by {
        assert(known_names()[i] == atom_name_at(i));
    }
    names
}

/// The names of the window types whose windows float.
pub fn auto_float_window_types() -> (names: Vec<&'static str>)
    ensures
        names@.len() == AUTO_FLOAT_COUNT,
        forall|i: int|
            0 <= i < AUTO_FLOAT_COUNT ==> (#[trigger] names@[i])@ == auto_float_names()[i],
{
    let names = vec![
        "_NET_WM_WINDOW_TYPE_DESKTOP",
        "_NET_WM_WINDOW_TYPE_DIALOG",
        "_NET_WM_WINDOW_TYPE_DOCK",
        "_NET_WM_WINDOW_TYPE_DROPDOWN_MENU",
        "_NET_WM_WINDOW_TYPE_MENU",
        "_NET_WM_WINDOW_TYPE_NOTIFICATION",
        "_NET_WM_WINDOW_TYPE_POPUP_MENU",
        "_NET_WM_WINDOW_TYPE_SPLASH",
        "_NET_WM_WINDOW_TYPE_TOOLBAR",
        "_NET_WM_WINDOW_TYPE_UTILITY",
    ];
    assert(names@.len() == AUTO_FLOAT_COUNT);
    assert forall|i: int| 0 <= i < AUTO_FLOAT_COUNT implies (#[trigger] names@[i])@
        == auto_float_names()[i] by {
        assert(auto_float_names()[i] == auto_float_name_at(i));
    }
    names
}

/// The table that results from resolving `names` one after the other, each
/// to the identifier at the same place in `ids`: a name that stands in the
/// list twice keeps the identifier it was given last.
pub open spec fn interned(names: Seq<Seq<char>>, ids: Seq<u32>) -> Map<Seq<char>, u32>
    recommends
        names.len() == ids.len(),
    decreases names.len(),
{
    if names.len() == 0 {
        Map::empty()
    } else {
        interned(names.drop_last(), ids.drop_last()).insert(names.last(), ids.last())
    }
}

/// The identifiers that `table` gives to `names`, in the order of `names`.
pub open spec fn resolved(table: Map<Seq<char>, u32>, names: Seq<Seq<char>>) -> Seq<u32> {
    Seq::new(names.len(), |i: int| table[names[i]])
}

/// A table holds exactly the names that were resolved.
pub proof fn lemma_interned_domain(names: Seq<Seq<char>>, ids: Seq<u32>, name: Seq<char>)
    requires
        names.len() == ids.len(),
    ensures
        interned(names, ids).dom().contains(name) <==> names.contains(name),
    decreases names.len(),
{
    if names.len() > 0 {
        lemma_interned_domain(names.drop_last(), ids.drop_last(), name);
        if names.contains(name) {
            let i = choose|i: int| 0 <= i < names.len() && names[i] == name;
            if i < names.len() - 1 {
                assert(names.drop_last()[i] == name);
            }
        }
        if names.drop_last().contains(name) {
            let i = choose|i: int| 0 <= i < names.drop_last().len() && names.drop_last()[i] == name;
            assert(names[i] == name);
        }
    }
}

/// A name is given the identifier of the last place at which it stands.
pub proof fn lemma_interned_last(names: Seq<Seq<char>>, ids: Seq<u32>, at: int)
    requires
        names.len() == ids.len(),
        0 <= at < names.len(),
        forall|j: int| at < j < names.len() ==> names[j] != names[at],
    ensures
        interned(names, ids).dom().contains(names[at]),
        interned(names, ids)[names[at]] == ids[at],
    decreases names.len(),
{
    if at < names.len() - 1 {
        assert(names.last() != names[at]);
        assert forall|j: int| at < j < names.drop_last().len() implies names.drop_last()[j]
            != names.drop_last()[at] by {
            assert(names.drop_last()[j] == names[j]);
        }
        lemma_interned_last(names.drop_last(), ids.drop_last(), at);
    }
}

/// What is enough to tell the names of the atom list apart: the length of a
/// name and the characters at two of its places, a question mark where the
/// name is too short to have them.
pub open spec fn mark(name: Seq<char>) -> (nat, char, char) {
    (
        name.len(),
        if name.len() > 6 {
            name[6]
        } else {
            '?'
        },
        if name.len() > 20 {
            name[20]
        } else {
            '?'
        },
    )
}

/// The mark of the name at each place of the atom list.
pub open spec fn mark_at(at: int) -> (nat, char, char) {
    if at == 0 {
        (7, 'R', '?')
    } else if at == 1 {
        (11, 'T', '?')
    } else if at == 2 {
        (8, 'S', '?')
    } else if at == 3 {
        (16, 'E', '?')
    } else if at == 4 {
        (12, 'T', '?')
    } else if at == 5 {
        (8, 'T', '?')
    } else if at == 6 {
        (7, 'E', '?')
    } else if at == 7 {
        (13, 'E', '?')
    } else if at == 8 {
        (18, 'C', '?')
    } else if at == 9 {
        (16, 'L', '?')
    } else if at == 10 {
        (20, 'U', '?')
    } else if at == 11 {
        (18, 'E', '?')
    } else if at == 12 {
        (23, 'U', 'O')
    } else if at == 13 {
        (14, 'U', '?')
    } else if at == 14 {
        (24, 'U', 'H')
    } else if at == 15 {
        (23, 'Y', 'O')
    } else if at == 16 {
        (28, 'Y', 'E')
    } else if at == 17 {
        (33, 'Y', 'E')
    } else if at == 18 {
        (19, 'Y', '?')
    } else if at == 19 {
        (15, 'M', '?')
    } else if at == 20 {
        (12, 'M', '?')
    } else if at == 21 {
        (13, 'M', '?')
    } else if at == 22 {
        (24, 'M', 'R')
    } else if at == 23 {
        (19, 'M', '?')
    } else if at == 24 {
        (26, 'M', 'D')
    } else if at == 25 {
        (7, 'D', '?')
    } else if at == 26 {
        (12, 'D', '?')
    } else if at == 27 {
        (27, 'M', 'D')
    } else if at == 28 {
        (24, 'M', 'D')
    } else if at == 29 {
        (27, 'M', 'T')
    } else if at == 30 {
        (24, 'M', 'M')
    } else if at == 31 {
        (27, 'M', 'U')
    } else if at == 32 {
        (26, 'M', 'S')
    } else if at == 33 {
        (26, 'M', 'D')
    } else if at == 34 {
        (33, 'M', 'D')
    } else if at == 35 {
        (30, 'M', 'P')
    } else if at == 36 {
        (32, 'M', 'N')
    } else if at == 37 {
        (25, 'M', 'C')
    } else if at == 38 {
        (23, 'M', 'D')
    } else {
        (26, 'M', 'N')
    }
}

/// The names of the atom list have the marks of [`mark_at`].
pub proof fn lemma_marks(at: int)
    requires
        0 <= at < ATOM_COUNT,
    ensures
        mark(known_names()[at]) == mark_at(at),
{
    if at == 0 {
        reveal_strlit("MANAGER");
    } else if at == 1 {
        reveal_strlit("UTF8_STRING");
    } else if at == 2 {
        reveal_strlit("WM_CLASS");
    } else if at == 3 {
        reveal_strlit("WM_DELETE_WINDOW");
    } else if at == 4 {
        reveal_strlit("WM_PROTOCOLS");
    } else if at == 5 {
        reveal_strlit("WM_STATE");
    } else if at == 6 {
        reveal_strlit("WM_NAME");
    } else if at == 7 {
        reveal_strlit("WM_TAKE_FOCUS");
    } else if at == 8 {
        reveal_strlit("_NET_ACTIVE_WINDOW");
    } else if at == 9 {
        reveal_strlit("_NET_CLIENT_LIST");
    } else if at == 10 {
        reveal_strlit("_NET_CURRENT_DESKTOP");
    } else if at == 11 {
        reveal_strlit("_NET_DESKTOP_NAMES");
    } else if at == 12 {
        reveal_strlit("_NET_NUMBER_OF_DESKTOPS");
    } else if at == 13 {
        reveal_strlit("_NET_SUPPORTED");
    } else if at == 14 {
        reveal_strlit("_NET_SUPPORTING_WM_CHECK");
    } else if at == 15 {
        reveal_strlit("_NET_SYSTEM_TRAY_OPCODE");
    } else if at == 16 {
        reveal_strlit("_NET_SYSTEM_TRAY_ORIENTATION");
    } else if at == 17 {
        reveal_strlit("_NET_SYSTEM_TRAY_ORIENTATION_HORZ");
    } else if at == 18 {
        reveal_strlit("_NET_SYSTEM_TRAY_S0");
    } else if at == 19 {
        reveal_strlit("_NET_WM_DESKTOP");
    } else if at == 20 {
        reveal_strlit("_NET_WM_NAME");
    } else if at == 21 {
        reveal_strlit("_NET_WM_STATE");
    } else if at == 22 {
        reveal_strlit("_NET_WM_STATE_FULLSCREEN");
    } else if at == 23 {
        reveal_strlit("_NET_WM_WINDOW_TYPE");
    } else if at == 24 {
        reveal_strlit("_NET_WM_WINDOW_TYPE_DIALOG");
    } else if at == 25 {
        reveal_strlit("_XEMBED");
    } else if at == 26 {
        reveal_strlit("_XEMBED_INFO");
    } else if at == 27 {
        reveal_strlit("_NET_WM_WINDOW_TYPE_DESKTOP");
    } else if at == 28 {
        reveal_strlit("_NET_WM_WINDOW_TYPE_DOCK");
    } else if at == 29 {
        reveal_strlit("_NET_WM_WINDOW_TYPE_TOOLBAR");
    } else if at == 30 {
        reveal_strlit("_NET_WM_WINDOW_TYPE_MENU");
    } else if at == 31 {
        reveal_strlit("_NET_WM_WINDOW_TYPE_UTILITY");
    } else if at == 32 {
        reveal_strlit("_NET_WM_WINDOW_TYPE_SPLASH");
    } else if at == 33 {
        reveal_strlit("_NET_WM_WINDOW_TYPE_DIALOG");
    } else if at == 34 {
        reveal_strlit("_NET_WM_WINDOW_TYPE_DROPDOWN_MENU");
    } else if at == 35 {
        reveal_strlit("_NET_WM_WINDOW_TYPE_POPUP_MENU");
    } else if at == 36 {
        reveal_strlit("_NET_WM_WINDOW_TYPE_NOTIFICATION");
    } else if at == 37 {
        reveal_strlit("_NET_WM_WINDOW_TYPE_COMBO");
    } else if at == 38 {
        reveal_strlit("_NET_WM_WINDOW_TYPE_DND");
    } else {
        reveal_strlit("_NET_WM_WINDOW_TYPE_NORMAL");
    }
}

/// No name stands in the atom list twice, but for the dialog window type,
/// which stands at places 24 and 33.
pub proof fn lemma_names_listed_once(i: int, j: int)
    requires
        0 <= i < j < ATOM_COUNT,
        known_names()[i] == known_names()[j],
    ensures
        i == 24 && j == 33,
{
    lemma_marks(i);
    lemma_marks(j);
}

/// The place whose identifier the name at place `at` is given: its own, but
/// for the first of the two places of the dialog window type.
pub open spec fn deciding_place(at: int) -> int {
    if at == 24 {
        33
    } else {
        at
    }
}

/// Every name of the atom list has an identifier once the server has
/// answered for each place of the list: the identifier returned at the
/// name's place, and for the name that stands in the list twice the one
/// returned at its second place. A table never changes, so looking a name up
/// again gives the same identifier.
pub proof fn lemma_identifier_of_place(ids: Seq<u32>, at: int)
    requires
        ids.len() == ATOM_COUNT,
        0 <= at < ATOM_COUNT,
    ensures
        interned(known_names(), ids).dom().contains(known_names()[at]),
        interned(known_names(), ids)[known_names()[at]] == ids[deciding_place(at)],
{
    let last = deciding_place(at);
    assert(known_names()[last] == known_names()[at]);
    assert forall|j: int| last < j < ATOM_COUNT implies known_names()[j] != known_names()[last] by {
        if known_names()[j] == known_names()[last] {
            lemma_names_listed_once(last, j);
        }
    }
    lemma_interned_last(known_names(), ids, last);
}

/// The atoms of one connection: each known name with the identifier the
/// server gave it, and the identifiers of the window types that float.
pub struct AtomTable {
    names: Vec<&'static str>,
    ids: Vec<u32>,
    auto_float: Vec<u32>,
}

impl View for AtomTable {
    type V = Map<Seq<char>, u32>;

    closed spec fn view(&self) -> Map<Seq<char>, u32> {
        interned(known_names(), self.ids@)
    }
}

impl AtomTable {
    /// What holds of every table: it has an identifier for each known name
    /// and for no other, and it has looked up the floating window types.
    #[verifier::type_invariant]
    pub closed spec fn wf(&self) -> bool {
        &&& self.names@.len() == ATOM_COUNT
        &&& self.ids@.len() == ATOM_COUNT
        &&& forall|i: int| 0 <= i < ATOM_COUNT ==> (#[trigger] self.names@[i])@ == known_names()[i]
        &&& self.auto_float@ == resolved(self@, auto_float_names())
    }

    /// The identifiers the table was made from, in the order of the names.
    pub closed spec fn ids(&self) -> Seq<u32> {
        self.ids@
    }

    /// A table is the result of resolving the known names, and it holds
    /// every one of them.
    pub proof fn lemma_view(&self)
        requires
            self.wf(),
        ensures
            self.ids().len() == ATOM_COUNT,
            self@ == interned(known_names(), self.ids()),
            forall|name: Seq<char>| self@.dom().contains(name) <==> known_names().contains(name),
    {
        assert forall|name: Seq<char>| self@.dom().contains(name) <==> known_names().contains(
            name,
        ) by {
            lemma_interned_domain(known_names(), self.ids@, name);
        }
    }

    /// The table of a connection on which the server answered the known
    /// names, in their order, with `ids`. `None` where `ids` is not one
    /// identifier for each name.
    pub fn new(ids: Vec<u32>) -> (table: Option<AtomTable>)
        ensures
            table is Some <==> ids@.len() == ATOM_COUNT,
            table matches Some(t) ==> t.wf() && t.ids() == ids@ && t@ == interned(
                known_names(),
                ids@,
            ),
    {
        if ids.len() != ATOM_COUNT {
            return None;
        }
        Some(AtomTable::resolve(ids))
    }

    /// The table of the identifiers `ids`, one for each known name.
    pub(crate) fn resolve(ids: Vec<u32>) -> (t: AtomTable)
        requires
            ids@.len() == ATOM_COUNT,
        ensures
            t.wf(),
            t.ids() == ids@,
            t@ == interned(known_names(), ids@),
    {
        let names = atom_names();
        let floats = auto_float_window_types();
        let ghost table = interned(known_names(), ids@);
        let mut auto_float: Vec<u32> = Vec::new();
        let mut k: usize = 0;
        while k < floats.len()
            invariant
                k <= floats@.len() == AUTO_FLOAT_COUNT,
                names@.len() == ATOM_COUNT,
                ids@.len() == ATOM_COUNT,
                forall|i: int| 0 <= i < ATOM_COUNT ==> (#[trigger] names@[i])@ == known_names()[i],
                forall|i: int|
                    0 <= i < AUTO_FLOAT_COUNT ==> (#[trigger] floats@[i])@ == auto_float_names()[i],
                table == interned(known_names(), ids@),
                auto_float@ == resolved(table, auto_float_names()).take(k as int),
            decreases floats@.len() - k,
        {
            proof {
                lemma_auto_float_names_are_known(k as int);
            }
            auto_float.push(lookup_known(&names, &ids, floats[k]));
            k += 1;
            assert(auto_float@ =~= resolved(table, auto_float_names()).take(k as int));
        }
        assert(auto_float@ =~= resolved(table, auto_float_names()));
        AtomTable { names, ids, auto_float }
    }

    /// The identifier of `name`, if `name` is one of the known names.
    pub fn find(&self, name: &str) -> (id: Option<u32>)
        ensures
            id == (if self@.dom().contains(name@) {
                Some(self@[name@])
            } else {
                None
            }),
            id is Some <==> known_names().contains(name@),
    {
        proof {
            use_type_invariant(self);
            lemma_interned_domain(known_names(), self.ids@, name@);
        }
        lookup(&self.names, &self.ids, name)
    }

    /// The identifier of a known name. A name that is not known is the
    /// caller's mistake: ask [`AtomTable::find`] where that can happen.
    pub fn atom(&self, name: &str) -> (id: u32)
        requires
            known_names().contains(name@),
        ensures
            self@.dom().contains(name@),
            id == self@[name@],
    {
        proof {
            use_type_invariant(self);
            lemma_interned_domain(known_names(), self.ids@, name@);
        }
        lookup_known(&self.names, &self.ids, name)
    }

    /// The identifiers of the window types whose windows float, in the order
    /// of [`auto_float_names`].
    pub fn auto_float_types(&self) -> (ids: &Vec<u32>)
        ensures
            ids@ == resolved(self@, auto_float_names()),
    {
        proof {
            use_type_invariant(self);
        }
        &self.auto_float
    }

    /// The identifier of every name of the atom list, in the order of the
    /// list: what a window manager announces as supported.
    pub fn supported(&self) -> (ids: Vec<u32>)
        ensures
            ids@ == resolved(self@, known_names()),
    {
        proof {
            use_type_invariant(self);
        }
        let mut out: Vec<u32> = Vec::new();
        let mut k: usize = 0;
        while k < self.names.len()
            invariant
                self.wf(),
                k <= self.names@.len() == ATOM_COUNT,
                out@ == resolved(self@, known_names()).take(k as int),
            decreases self.names@.len() - k,
        {
            out.push(self.atom(self.names[k]));
            k += 1;
            assert(out@ =~= resolved(self@, known_names()).take(k as int));
        }
        assert(out@ =~= resolved(self@, known_names()));
        out
    }
}

/// Every window type that floats is a known name.
pub proof fn lemma_auto_float_names_are_known(i: int)
    requires
        0 <= i < AUTO_FLOAT_COUNT,
    ensures
        known_names().contains(auto_float_names()[i]),
{
    let at: int = if i == 0 {
        27
    } else if i == 1 {
        24
    } else if i == 2 {
        28
    } else if i == 3 {
        34
    } else if i == 4 {
        30
    } else if i == 5 {
        36
    } else if i == 6 {
        35
    } else if i == 7 {
        32
    } else if i == 8 {
        29
    } else {
        31
    };
    assert(known_names()[at] == auto_float_names()[i]);
}

/// Looks `name` up in a list of names and identifiers, from the end.
fn lookup(names: &Vec<&'static str>, ids: &Vec<u32>, name: &str) -> (id: Option<u32>)
    requires
        names@.len() == ATOM_COUNT,
        ids@.len() == ATOM_COUNT,
        forall|i: int| 0 <= i < ATOM_COUNT ==> (#[trigger] names@[i])@ == known_names()[i],
    ensures
        id == (if known_names().contains(name@) {
            Some(interned(known_names(), ids@)[name@])
        } else {
            None
        }),
{
    let mut i: usize = names.len();
    while i > 0
        invariant
            i <= ATOM_COUNT,
            names@.len() == ATOM_COUNT,
            ids@.len() == ATOM_COUNT,
            forall|j: int| 0 <= j < ATOM_COUNT ==> (#[trigger] names@[j])@ == known_names()[j],
            forall|j: int| i <= j < ATOM_COUNT ==> known_names()[j] != name@,
        decreases i,
    {
        i -= 1;
        if str_eq(names[i], name) {
            proof {
                assert(known_names()[i as int] == name@);
                lemma_interned_last(known_names(), ids@, i as int);
            }
            return Some(ids[i]);
        }
    }
    None
}

/// Looks up a name that is known.
fn lookup_known(names: &Vec<&'static str>, ids: &Vec<u32>, name: &str) -> (id: u32)
    requires
        names@.len() == ATOM_COUNT,
        ids@.len() == ATOM_COUNT,
        forall|i: int| 0 <= i < ATOM_COUNT ==> (#[trigger] names@[i])@ == known_names()[i],
        known_names().contains(name@),
    ensures
        id == interned(known_names(), ids@)[name@],
{
    match lookup(names, ids, name) {
        Some(id) => id,
        None => unreached(),
    }
}

} // verus!
