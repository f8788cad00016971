//! Replies to the reads that ask for something other than a property: a
//! window's geometry, the pointer, the input focus.
use vstd::prelude::*;
use crate::data_types::{widen, widened, Point, Region, WinId};
use crate::property::PropError;

verus! {

/// What the server reports of a window's geometry.
#[derive(Debug, Copy, Clone, PartialEq, Eq, Structural)]
pub struct Geometry {
    pub x: i16,
    pub y: i16,
    pub width: u16,
    pub height: u16,
}

impl Geometry {
    /// The area the window takes up.
    pub open spec fn region(self) -> Region {
        Region { x: widened(self.x), y: widened(self.y), w: self.width as u32, h: self.height as u32 }
    }

    /// The area the window takes up.
    pub fn to_region(&self) -> (r: Region)
        ensures
            r == self.region(),
    {
        Region::new(widen(self.x), widen(self.y), self.width as u32, self.height as u32)
    }
}

/// The area a window takes up, from the reply to the read of its geometry,
/// or the cause for which the round trip failed.
pub fn window_geometry(reply: Result<Geometry, String>) -> (r: Result<Region, PropError>)
    ensures
        r == (match reply {
            Err(cause) => Err::<Region, PropError>(PropError::Fetch { cause }),
            Ok(g) => Ok::<Region, PropError>(g.region()),
        }),
{
    match reply {
        Err(cause) => Err(PropError::Fetch { cause }),
        Ok(g) => Ok(g.to_region()),
    }
}

/// Where the pointer is, from the reply to the pointer query: its position
/// relative to the root window, or the origin where the query failed.
pub fn cursor_position(reply: Option<(i16, i16)>) -> (p: Point)
    ensures
        p == (match reply {
            Some((x, y)) => Point { x: widened(x), y: widened(y) },
            None => Point { x: 0, y: 0 },
        }),
{
    match reply {
        Some((x, y)) => Point::new(widen(x), widen(y)),
        None => Point::new(0, 0),
    }
}

/// The window that holds the input focus, from the reply to the focus
/// query; no window (0) where the query failed.
pub fn focused_client(reply: Option<WinId>) -> (id: WinId)
    ensures
        id == (match reply {
            Some(w) => w,
            None => 0,
        }),
{
    match reply {
        Some(w) => w,
        None => 0,
    }
}

/// The children of the root window, from the reply to the read of its
/// children: the windows in the order the server lists them, or none where
/// the read failed. No window is asked for its types then.
pub fn tree_children(reply: Option<Vec<WinId>>) -> (children: Vec<WinId>)
    ensures
        children@ == (match reply {
            Some(listed) => listed@,
            None => Seq::<WinId>::empty(),
        }),
{
    match reply {
        Some(listed) => listed,
        None => Vec::new(),
    }
}

} // verus!
