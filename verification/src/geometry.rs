//! Rectangles in virtual-screen coordinates and the geometry-preserving
//! translation between display frames: a window's top-left, expressed as an
//! offset from its source display's origin, is reapplied unchanged against
//! the target display's origin; width and height are never rescaled.

use vstd::prelude::*;

verus! {

/// A bounding rectangle in virtual-screen coordinates, as the operating
/// system reports it: `right` and `bottom` are exclusive edges.
#[derive(Clone, Copy, Debug, PartialEq, Eq, Structural)]
pub struct Rect {
    pub left: i32,
    pub top: i32,
    pub right: i32,
    pub bottom: i32,
}

/// A window's top-left minus its current display's top-left.
#[derive(Clone, Copy, Debug, PartialEq, Eq, Structural)]
pub struct RelativeOffset {
    pub dx: i32,
    pub dy: i32,
}

/// The position and size to hand to the window-repositioning call.
#[derive(Clone, Copy, Debug, PartialEq, Eq, Structural)]
pub struct Placement {
    pub x: i32,
    pub y: i32,
    pub width: i32,
    pub height: i32,
}

pub open spec fn fits_i32(x: int) -> bool {
    i32::MIN <= x <= i32::MAX
}

/// The left edge the window gets when its offset from `source`'s origin is
/// reapplied against `target`'s origin; identical source and target rectangles
/// mean no move at all.
pub open spec fn relocated_left(w: Rect, source: Rect, target: Rect) -> int {
    if target == source {
        w.left as int
    } else {
        target.left + (w.left - source.left)
    }
}

/// Top edge counterpart of `relocated_left`.
pub open spec fn relocated_top(w: Rect, source: Rect, target: Rect) -> int {
    if target == source {
        w.top as int
    } else {
        target.top + (w.top - source.top)
    }
}

/// What relocating window rectangle `w` from `source` to `target` computes:
/// `None` when the two display rectangles are identical (nothing to do),
/// otherwise the new top-left and the unchanged width and height.
pub open spec fn plan_spec(w: Rect, source: Rect, target: Rect) -> Option<(int, int, int, int)> {
    if target == source {
        None
    } else {
        Some(
            (
                relocated_left(w, source, target),
                relocated_top(w, source, target),
                w.right - w.left,
                w.bottom - w.top,
            ),
        )
    }
}

/// An executable placement agrees with a planned one exactly.
pub open spec fn placement_matches(p: Option<Placement>, q: Option<(int, int, int, int)>) -> bool {
    match (p, q) {
        (Option::None, Option::None) => true,
        (Option::Some(pl), Option::Some(t)) => pl.x == t.0 && pl.y == t.1 && pl.width == t.2
            && pl.height == t.3,
        _ => false,
    }
}

/// The machine limit on relocating `w` from `source` to `target`: every
/// intermediate of the translation must be representable as an `i32`.
/// Identical rectangles need nothing, since no arithmetic is performed.
pub open spec fn relocation_fits(w: Rect, source: Rect, target: Rect) -> bool {
    target != source ==> {
        &&& fits_i32(w.right - w.left)
        &&& fits_i32(w.bottom - w.top)
        &&& fits_i32(w.left - source.left)
        &&& fits_i32(w.top - source.top)
        &&& fits_i32(target.left + (w.left - source.left))
        &&& fits_i32(target.top + (w.top - source.top))
    }
}

/// The window's position relative to its current display's origin.
pub fn relative_offset(window: &Rect, display: &Rect) -> (o: RelativeOffset)
    requires
        fits_i32(window.left - display.left),
        fits_i32(window.top - display.top),
    ensures
        o.dx == window.left - display.left,
        o.dy == window.top - display.top,
{
    RelativeOffset { dx: window.left - display.left, dy: window.top - display.top }
}

/// Translating a window into a display's frame and projecting the offset back
/// onto the same display restores the original top-left exactly: the offset
/// arithmetic is over the integers and has no drift.
pub proof fn lemma_offset_round_trip(window: Rect, display: Rect)
    ensures
        display.left + (window.left - display.left) == window.left,
        display.top + (window.top - display.top) == window.top,
{
}

/// Computes the placement that moves `window` from display rectangle `source`
/// to display rectangle `target`: the same offset from the origin, the same
/// size, and no placement at all when the two rectangles are identical.
pub fn plan_relocation(window: &Rect, source: &Rect, target: &Rect) -> (p: Option<Placement>)
    requires
        relocation_fits(*window, *source, *target),
    ensures
        placement_matches(p, plan_spec(*window, *source, *target)),
{
    if *target == *source {
        return None;
    }
    let offset = relative_offset(window, source);
    Some(
        Placement {
            x: target.left + offset.dx,
            y: target.top + offset.dy,
            width: window.right - window.left,
            height: window.bottom - window.top,
        },
    )
}

/// Relocation round trip: if `moved` is the rectangle a window ends up in
/// after relocating `w` from display `a` to display `b` (same offset from the
/// origin, same size), then relocating `moved` from `b` back to `a` restores
/// every edge of the original rectangle exactly.
pub proof fn lemma_relocation_round_trip(w: Rect, moved: Rect, a: Rect, b: Rect)
    requires
        moved.left == relocated_left(w, a, b),
        moved.top == relocated_top(w, a, b),
        moved.right - moved.left == w.right - w.left,
        moved.bottom - moved.top == w.bottom - w.top,
    ensures
        relocated_left(moved, b, a) == w.left,
        relocated_top(moved, b, a) == w.top,
        relocated_left(moved, b, a) + (moved.right - moved.left) == w.right,
        relocated_top(moved, b, a) + (moved.bottom - moved.top) == w.bottom,
{
}

} // verus!
