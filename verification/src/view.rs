//! Geometry of the editor window.
use vstd::prelude::*;

verus! {

/// Width of the editor, in pixels.
pub const EDITOR_W: i32 = 800;

/// Height of the editor, in pixels.
pub const EDITOR_H: i32 = 600;

/// A rectangle in host coordinates.
#[derive(Clone, Copy, PartialEq, Eq, Structural, Debug)]
pub struct ViewRect {
    pub left: i32,
    pub top: i32,
    pub right: i32,
    pub bottom: i32,
}

/// The size the editor asks for: [`EDITOR_W`] by [`EDITOR_H`], at the origin.
pub fn editor_rect() -> (r: ViewRect)
    ensures
        r == (ViewRect { left: 0, top: 0, right: EDITOR_W, bottom: EDITOR_H }),
{
    ViewRect { left: 0, top: 0, right: EDITOR_W, bottom: EDITOR_H }
}

/// Width and height of a rectangle the host resizes the editor to.
pub fn rect_size(rect: &ViewRect) -> (r: (i32, i32))
    requires
        i32::MIN <= rect.right - rect.left <= i32::MAX,
        i32::MIN <= rect.bottom - rect.top <= i32::MAX,
    ensures
        r.0 == rect.right - rect.left,
        r.1 == rect.bottom - rect.top,
{
    (rect.right - rect.left, rect.bottom - rect.top)
}

} // verus!
