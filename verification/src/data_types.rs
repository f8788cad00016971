//! Plain value types shared by every part of the protocol layer.
use vstd::prelude::*;

verus! {

/// A server-assigned window handle.
pub type WinId = u32;

/// The keys the window manager wants delivered to it. Only the key set
/// matters here; what each key triggers is the caller's business.
pub type KeyBindings = Vec<KeyCode>;

/// Two to the power 32: the distance between a negative 16-bit coordinate and
/// the unsigned 32-bit number that has the same low bits after sign extension.
pub open spec fn u32_span() -> int {
    0x1_0000_0000
}

/// The unsigned 32-bit number a signed 16-bit wire coordinate widens to:
/// the coordinate itself when it is not negative, its two's-complement sign
/// extension otherwise.
pub open spec fn widened(v: i16) -> u32 {
    if v >= 0 {
        v as u32
    } else {
        (v + u32_span()) as u32
    }
}

/// Widens a signed 16-bit wire coordinate to `u32` by sign extension.
pub fn widen(v: i16) -> (r: u32)
    ensures
        r == widened(v),
        v >= 0 ==> r == v,
        v < 0 ==> r == v + u32_span(),
{
    if v >= 0 {
        v as u32
    } else {
        let wide: i64 = v as i64;
        (wide + 0x1_0000_0000i64) as u32
    }
}

/// An x/y coordinate pair.
#[derive(Debug, Copy, Clone, PartialEq, Eq, Hash, Structural)]
pub struct Point {
    pub x: u32,
    pub y: u32,
}

impl Point {
    /// The point at `(x, y)`.
    pub fn new(x: u32, y: u32) -> (p: Point)
        ensures
            p == (Point { x, y }),
    {
        Point { x, y }
    }
}

/// A rectangle: the position of its top-left corner and its size.
#[derive(Debug, Copy, Clone, PartialEq, Eq, Hash, Structural)]
pub struct Region {
    pub x: u32,
    pub y: u32,
    pub w: u32,
    pub h: u32,
}

impl Region {
    /// The region of size `w` by `h` whose top-left corner is at `(x, y)`.
    pub fn new(x: u32, y: u32, w: u32, h: u32) -> (r: Region)
        ensures
            r == (Region { x, y, w, h }),
    {
        Region { x, y, w, h }
    }

    /// The region as `(x, y, width, height)`.
    pub fn values(&self) -> (v: (u32, u32, u32, u32))
        ensures
            v == (self.x, self.y, self.w, self.h),
    {
        (self.x, self.y, self.w, self.h)
    }
}

/// A key together with the modifiers held while it is pressed.
#[derive(Debug, Copy, Clone, PartialEq, Eq, Hash, Structural)]
pub struct KeyCode {
    /// The modifier mask.
    pub mask: u16,
    /// The hardware key code.
    pub code: u8,
}

impl KeyCode {
    /// The key code of a key-press event, from the event's `detail` (the key)
    /// and `state` (the modifiers) fields.
    pub fn from_key_press(detail: u8, state: u16) -> (k: KeyCode)
        ensures
            k == (KeyCode { mask: state, code: detail }),
    {
        KeyCode { mask: state, code: detail }
    }
}

} // verus!
