//! Setting a connection up: what has to have gone well before the window
//! manager may use it.
//!
//! A connection is *connected* once the server has named a root window and
//! resolved every atom, and *ready* once the hidden check window exists, the
//! RandR extension is known and output changes are subscribed to. Nothing
//! here degrades: the first thing that goes wrong ends the setup.
use vstd::prelude::*;
use vstd::string::StringExecFns;
use crate::atoms::{atom_names, interned, known_names, AtomTable, ATOM_COUNT};
use crate::data_types::WinId;
use crate::driver::Driver;
use crate::request::{
    InternAtom, Request, RequestView, NOTIFY_MASK_CRTC_CHANGE, WINDOW_CLASS_INPUT_ONLY,
};

verus! {

/// Why a connection could not be set up.
#[derive(Debug, PartialEq, Eq)]
pub enum SetupError {
    /// No connection to the server could be made; `cause` says why.
    Unreachable { cause: String },
    /// The server names no screen, so there is no root window.
    NoScreen,
    /// The server did not resolve the atom `name`.
    Atom { name: String },
    /// The server does not have the RandR extension.
    NoRandr,
    /// Output changes could not be subscribed to; `cause` says why.
    Randr { cause: String },
}

impl SetupError {
    /// The error in words.
    pub open spec fn text(&self) -> Seq<char> {
        match *self {
            SetupError::Unreachable { cause } => "unable to establish connection to X server: "@
                + cause@,
            SetupError::NoScreen => "unable to get handle for screen"@,
            SetupError::Atom { name } => "unable to intern xcb atom '"@ + name@ + "'"@,
            SetupError::NoRandr => "unable to find the xrandr extension"@,
            SetupError::Randr { cause } => "xrandr error: "@ + cause@,
        }
    }

    /// The error in words, for whoever has to end the process with it.
    pub fn message(&self) -> (msg: String)
        ensures
            msg@ == self.text(),
    {
        match self {
            SetupError::Unreachable { cause } => {
                let mut msg = String::from_str("unable to establish connection to X server: ");
                msg.append(cause.as_str());
                msg
            },
            SetupError::NoScreen => String::from_str("unable to get handle for screen"),
            SetupError::Atom { name } => {
                let mut msg = String::from_str("unable to intern xcb atom '");
                msg.append(name.as_str());
                msg.append("'");
                msg
            },
            SetupError::NoRandr => String::from_str("unable to find the xrandr extension"),
            SetupError::Randr { cause } => {
                let mut msg = String::from_str("xrandr error: ");
                msg.append(cause.as_str());
                msg
            },
        }
    }
}

/// The requests that resolve the names of the atom list, in the order of the
/// list. Each asks for the atom to be made if the server does not have it.
pub fn intern_requests() -> (reqs: Vec<InternAtom>)
    ensures
        reqs@.len() == ATOM_COUNT,
        forall|i: int|
            0 <= i < ATOM_COUNT ==> !(#[trigger] reqs@[i]).only_if_exists && reqs@[i].name@
                == known_names()[i],
{
    let names = atom_names();
    let mut reqs: Vec<InternAtom> = Vec::new();
    let mut i: usize = 0;
    while i < names.len()
        invariant
            i <= names@.len() == ATOM_COUNT,
            forall|k: int| 0 <= k < ATOM_COUNT ==> (#[trigger] names@[k])@ == known_names()[k],
            reqs@.len() == i,
            forall|k: int|
                0 <= k < i ==> !(#[trigger] reqs@[k]).only_if_exists && reqs@[k].name@
                    == known_names()[k],
        decreases names@.len() - i,
    {
        reqs.push(InternAtom { only_if_exists: false, name: names[i] });
        i += 1;
    }
    reqs
}

/// Whether the replies to the atom requests, given in the order of the atom
/// list, lack the identifier of name `at`: the request failed, or was never
/// made.
pub open spec fn unresolved(replies: Seq<Option<u32>>, at: int) -> bool {
    at >= replies.len() || replies[at] is None
}

/// The identifiers in the first `n` replies, where none of them is lacking.
pub open spec fn identifiers(replies: Seq<Option<u32>>, n: int) -> Seq<u32> {
    Seq::new(n as nat, |i: int| replies[i]->Some_0)
}

/// A connection whose handshake went well: it has a root window and all its
/// atoms.
pub struct Connected {
    pub root: WinId,
    pub atoms: AtomTable,
}

impl Connected {
    /// Takes stock after the handshake. `root` is the root window of the
    /// server's first screen, `None` where it has no screen; `replies` are
    /// the identifiers the server returned for the names of the atom list,
    /// in that order, `None` for a request that failed. The first name
    /// without an identifier ends the setup.
    pub fn new(root: Option<WinId>, replies: &[Option<u32>]) -> (r: Result<Connected, SetupError>)
        ensures
            root is None ==> r == Err::<Connected, SetupError>(SetupError::NoScreen),
            root is Some ==> forall|at: int|
                0 <= at < ATOM_COUNT && unresolved(replies@, at) && (forall|j: int|
                    0 <= j < at ==> !unresolved(replies@, j)) ==> (r matches Err(
                    SetupError::Atom { name },
                ) && name@ == known_names()[at]),
            root is Some && (forall|j: int| 0 <= j < ATOM_COUNT ==> !unresolved(replies@, j)) ==> (
            r matches Ok(c) && c.root == root->Some_0 && c.atoms@ == interned(
                known_names(),
                identifiers(replies@, ATOM_COUNT as int),
            )),
    {
        let window = match root {
            Some(w) => w,
            None => {
                return Err(SetupError::NoScreen);
            },
        };
        let names = atom_names();
        let mut ids: Vec<u32> = Vec::new();
        let mut i: usize = 0;
        while i < ATOM_COUNT
            invariant
                i <= ATOM_COUNT,
                root == Some(window),
                names@.len() == ATOM_COUNT,
                forall|k: int| 0 <= k < ATOM_COUNT ==> (#[trigger] names@[k])@ == known_names()[k],
                forall|j: int| 0 <= j < i ==> !unresolved(replies@, j),
                ids@ == identifiers(replies@, i as int),
            decreases ATOM_COUNT - i,
        {
            let id = if i < replies.len() {
                replies[i]
            } else {
                None
            };
            match id {
                Some(id) => {
                    ids.push(id);
                },
                None => {
                    assert(unresolved(replies@, i as int));
                    return Err(SetupError::Atom { name: String::from_str(names[i]) });
                },
            }
            i += 1;
            assert(ids@ =~= identifiers(replies@, i as int));
        }
        Ok(Connected { root: window, atoms: AtomTable::resolve(ids) })
    }

    /// The request that creates the check window: a window of the root
    /// window's, at the origin and without size or border, that takes input
    /// only and so is never seen.
    pub fn check_window(&self, wid: WinId) -> (req: Request)
        ensures
            req.deep_view() == (RequestView::CreateWindow {
                depth: 0,
                wid,
                parent: self.root,
                x: 0,
                y: 0,
                width: 0,
                height: 0,
                border_width: 0,
                class: WINDOW_CLASS_INPUT_ONLY,
                visual: 0,
            }),
    {
        Request::CreateWindow {
            depth: 0,
            wid,
            parent: self.root,
            x: 0,
            y: 0,
            width: 0,
            height: 0,
            border_width: 0,
            class: WINDOW_CLASS_INPUT_ONLY,
            visual: 0,
        }
    }

    /// The request that subscribes to changes of the output controllers.
    pub fn select_input(&self) -> (req: Request)
        ensures
            req.deep_view() == (RequestView::SelectInput {
                window: self.root,
                enable: NOTIFY_MASK_CRTC_CHANGE,
            }),
    {
        Request::SelectInput { window: self.root, enable: NOTIFY_MASK_CRTC_CHANGE }
    }

    /// Makes the connection ready. `check_win` is the check window that was
    /// created, `randr_base` the first event code of the RandR extension,
    /// `None` where the server does not have it, and `subscribed` the outcome
    /// of subscribing to output changes.
    pub fn ready(
        self,
        check_win: WinId,
        randr_base: Option<u8>,
        subscribed: Result<(), String>,
    ) -> (r: Result<Driver, SetupError>)
        ensures
            match (randr_base, subscribed) {
                (None, _) => r == Err::<Driver, SetupError>(SetupError::NoRandr),
                (Some(_), Err(cause)) => r == Err::<Driver, SetupError>(
                    SetupError::Randr { cause },
                ),
                (Some(base), Ok(_)) => r == Ok::<Driver, SetupError>(
                    Driver { root: self.root, check_win, atoms: self.atoms, randr_base: base },
                ),
            },
    {
        let base = match randr_base {
            Some(base) => base,
            None => {
                return Err(SetupError::NoRandr);
            },
        };
        match subscribed {
            Ok(_) => Ok(Driver::new(self.root, check_win, self.atoms, base)),
            Err(cause) => Err(SetupError::Randr { cause }),
        }
    }
}

} // verus!
