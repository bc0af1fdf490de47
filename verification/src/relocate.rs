//! The whole decision behind one chord press, from snapshot to placement:
//! gate the focused window through the eligibility policy, find the display
//! adjacent to its current one, and translate the window's rectangle into the
//! target display's frame. Every failure on the way -- an ineligible window,
//! an unreadable rectangle, an unresolved current display, no different
//! neighbor -- yields no placement at all: the chord silently does nothing.

use vstd::prelude::*;

use crate::eligibility::{is_movable, spec_movable, WindowSnapshot};
use crate::geometry::{
    placement_matches, plan_relocation, plan_spec, relocation_fits, Placement, Rect,
};
use crate::topology::{adjacent, adjacent_in_sorted_spec, sorted_by_left, Direction, Monitor};

verus! {

/// Plans the relocation triggered by one chord press. `snapshot` and
/// `window_rect` describe the focused window, `current` the display it sits
/// on (`None` when that query failed), `monitors` the live topology.
///
/// No placement comes back unless the window passes the eligibility policy
/// and both geometry queries succeeded; otherwise the placement is exactly
/// the window's rectangle re-projected onto the display adjacent in
/// `direction` within some left-edge ordering of `monitors`, and `None` when
/// that neighbor's rectangle equals the current one (nothing to do).
pub fn plan_window_move(
    snapshot: &WindowSnapshot,
    own_pid: u32,
    window_rect: Option<Rect>,
    current: Option<Monitor>,
    monitors: &Vec<Monitor>,
    direction: Direction,
) -> (p: Option<Placement>)
    requires
        spec_movable(*snapshot, own_pid) && window_rect is Some && current is Some ==> forall|
            i: int,
        |
            0 <= i < monitors@.len() ==> relocation_fits(
                window_rect->Some_0,
                (current->Some_0).rect,
                monitors@[i].rect,
            ),
    ensures
        !(spec_movable(*snapshot, own_pid) && window_rect is Some && current is Some) ==> p
            is None,
        spec_movable(*snapshot, own_pid) && window_rect is Some && current is Some ==> exists|
            s: Seq<Monitor>,
        |
            sorted_by_left(s) && s.to_multiset() == monitors@.to_multiset() && placement_matches(
                p,
                plan_spec(
                    window_rect->Some_0,
                    (current->Some_0).rect,
                    adjacent_in_sorted_spec(s, current->Some_0, direction).rect,
                ),
            ),
{
    if !is_movable(snapshot, own_pid) {
        return None;
    }
    let w = match window_rect {
        Some(w) => w,
        None => {
            return None;
        },
    };
    let c = match current {
        Some(c) => c,
        None => {
            return None;
        },
    };
    let target = adjacent(&c, direction, monitors);
    proof {
        if target != c {
            assert(monitors@.contains(target));
            let i = choose|i: int| 0 <= i < monitors@.len() && monitors@[i] == target;
            assert(relocation_fits(w, c.rect, monitors@[i].rect));
        }
    }
    let p = plan_relocation(&w, &c.rect, &target.rect);
    proof {
        let s = choose|s: Seq<Monitor>|
            sorted_by_left(s) && s.to_multiset() == monitors@.to_multiset() && target
                == adjacent_in_sorted_spec(s, c, direction);
        assert(sorted_by_left(s) && s.to_multiset() == monitors@.to_multiset()
            && placement_matches(p, plan_spec(w, c.rect, adjacent_in_sorted_spec(s, c, direction).rect)));
    }
    p
}

} // verus!
