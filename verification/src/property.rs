//! Reading window properties: what a reply means, and what can go wrong.
use vstd::prelude::*;
use vstd::string::StringExecFns;
use vstd::utf8::{encode_utf8, valid_utf8};
use crate::data_types::WinId;
use crate::text::{decimal, to_decimal};

verus! {

/// How many 32-bit units of a text or atom property are read at most.
pub const PROPERTY_READ_LENGTH: u32 = 1024;

/// How many 32-bit units of a list of window types are read at most.
pub const WINDOW_TYPE_READ_LENGTH: u32 = 2048;

/// Why a property could not be read.
#[derive(Debug, PartialEq, Eq)]
pub enum PropError {
    /// The property's name is not one of the atoms of this connection.
    UnknownAtom { name: String },
    /// The round trip to the server failed; `cause` says how.
    Fetch { cause: String },
    /// The property does not hold text; `cause` says where it stops being
    /// UTF-8.
    InvalidUtf8 { cause: String },
    /// The property is not set on the window.
    Empty { name: String, id: WinId },
}

impl PropError {
    /// The error in words.
    pub open spec fn text(&self) -> Seq<char> {
        match *self {
            PropError::UnknownAtom { name } => name@ + " is not a known atom"@,
            PropError::Fetch { cause } => "unable to fetch window property: "@ + cause@,
            PropError::InvalidUtf8 { cause } => "invalid utf8 resonse from xcb: "@ + cause@,
            PropError::Empty { name, id } => "property '"@ + name@ + "' was empty for id: "@
                + decimal(id as nat),
        }
    }

    /// The error in words, for whoever reads the log.
    pub fn message(&self) -> (msg: String)
        ensures
            msg@ == self.text(),
    {
        match self {
            PropError::UnknownAtom { name } => {
                let mut msg = String::from_str(name.as_str());
                msg.append(" is not a known atom");
                msg
            },
            PropError::Fetch { cause } => {
                let mut msg = String::from_str("unable to fetch window property: ");
                msg.append(cause.as_str());
                msg
            },
            PropError::InvalidUtf8 { cause } => {
                let mut msg = String::from_str("invalid utf8 resonse from xcb: ");
                msg.append(cause.as_str());
                msg
            },
            PropError::Empty { name, id } => {
                let mut msg = String::from_str("property '");
                msg.append(name.as_str());
                msg.append("' was empty for id: ");
                let digits = to_decimal(*id);
                msg.append(digits.as_str());
                msg
            },
        }
    }
}

/// The words in which the standard library says why `bytes` are not UTF-8.
pub uninterp spec fn utf8_refusal(bytes: Seq<u8>) -> Seq<char>;

/// `String::from_utf8` of the standard library. It accepts exactly the byte
/// strings that are valid UTF-8, and the string it returns is made of the
/// bytes it was given. Where it refuses, the error is returned as the text
/// that the standard library prints for it, which depends on the bytes
/// alone.
#[verifier::external_body]
fn string_from_utf8(bytes: Vec<u8>) -> (r: Result<String, String>)
    ensures
        r is Ok <==> valid_utf8(bytes@),
        r matches Ok(s) ==> encode_utf8(s@) == bytes@,
        r matches Err(cause) ==> cause@ == utf8_refusal(bytes@),
{
    match String::from_utf8(bytes) {
        Ok(s) => Ok(s),
        Err(e) => Err(format!("{}", e)),
    }
}

/// The text that the reply to a read of a text property holds. `reply` is
/// the property's bytes, or the cause for which the round trip failed.
pub fn str_prop(reply: Result<Vec<u8>, String>) -> (r: Result<String, PropError>)
    ensures
        match reply {
            Err(cause) => r == Err::<String, PropError>(PropError::Fetch { cause }),
            Ok(bytes) => if valid_utf8(bytes@) {
                r matches Ok(s) && encode_utf8(s@) == bytes@
            } else {
                r matches Err(PropError::InvalidUtf8 { cause }) && cause@ == utf8_refusal(bytes@)
            },
        },
{
    match reply {
        Err(cause) => Err(PropError::Fetch { cause }),
        Ok(bytes) => match string_from_utf8(bytes) {
            Ok(s) => Ok(s),
            Err(cause) => Err(PropError::InvalidUtf8 { cause }),
        },
    }
}

/// The atom that the reply to a read of the atom property `name` of window
/// `id` holds: the first item of the property. `reply` is the property as
/// 32-bit items, or the cause for which the round trip failed. A property
/// without items is not set, which is an error and not the atom 0.
pub fn atom_prop(id: WinId, name: &str, reply: Result<Vec<u32>, String>) -> (r: Result<
    u32,
    PropError,
>)
    ensures
        match reply {
            Err(cause) => r == Err::<u32, PropError>(PropError::Fetch { cause }),
            Ok(items) => if items@.len() == 0 {
                r matches Err(PropError::Empty { name: n, id: i }) && n@ == name@ && i == id
            } else {
                r == Ok::<u32, PropError>(items@[0])
            },
        },
{
    match reply {
        Err(cause) => Err(PropError::Fetch { cause }),
        Ok(items) => {
            if items.len() == 0 {
                Err(PropError::Empty { name: String::from_str(name), id })
            } else {
                Ok(items[0])
            }
        },
    }
}

} // verus!
