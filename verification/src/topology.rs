//! Monitor topology: the active displays ordered along one horizontal axis by
//! the left edge of their bounding rectangles, and the clamped walk that
//! answers "which display is immediately left or right of this one".
//!
//! The current display is located in the ordered sequence by exact rectangle
//! match; if the live topology no longer contains it (it was unplugged between
//! capture and lookup), the walk falls back to the display it was given, which
//! makes the whole relocation a no-op.

use vstd::prelude::*;

use crate::geometry::Rect;

verus! {

broadcast use vstd::seq_lib::group_to_multiset_ensures;

/// The only two ways a window can move: the topology is one-dimensional.
#[derive(Clone, Copy, Debug, PartialEq, Eq, Structural)]
pub enum Direction {
    Left,
    Right,
}

/// A display: an opaque handle owned by the operating system, and its
/// bounding rectangle in virtual-screen coordinates.
#[derive(Clone, Copy, Debug, PartialEq, Eq, Structural)]
pub struct Monitor {
    pub handle: u64,
    pub rect: Rect,
}

/// The sequence is ordered by the left edge of each display's rectangle.
pub open spec fn sorted_by_left(s: Seq<Monitor>) -> bool {
    forall|i: int, j: int| 0 <= i < j < s.len() ==> s[i].rect.left <= s[j].rect.left
}

/// Index of the first monitor at or after position `i` whose rectangle equals
/// `r`, or -1 if there is none.
pub open spec fn first_match_from(s: Seq<Monitor>, r: Rect, i: int) -> int
    decreases s.len() - i,
{
    if i < 0 || i >= s.len() {
        -1
    } else if s[i].rect == r {
        i
    } else {
        first_match_from(s, r, i + 1)
    }
}

/// Index of the first monitor whose rectangle equals `r`, or -1 if none does.
pub open spec fn first_match_index(s: Seq<Monitor>, r: Rect) -> int {
    first_match_from(s, r, 0)
}

/// The neighbor that the clamped walk yields on an ordered topology `s`:
/// the predecessor or successor of the first entry matching `current`'s
/// rectangle, the entry itself at either end (no wraparound), and `current`
/// unchanged when no entry matches.
pub open spec fn adjacent_in_sorted_spec(s: Seq<Monitor>, current: Monitor, direction: Direction) -> Monitor {
    let i = first_match_index(s, current.rect);
    if i < 0 {
        current
    } else {
        match direction {
            Direction::Left => if i > 0 { s[i - 1] } else { s[i] },
            Direction::Right => if i + 1 < s.len() { s[i + 1] } else { s[i] },
        }
    }
}

proof fn lemma_first_match_skip(s: Seq<Monitor>, r: Rect, i: int)
    requires
        0 <= i <= s.len(),
        forall|k: int| 0 <= k < i ==> s[k].rect != r,
    ensures
        first_match_from(s, r, 0) == first_match_from(s, r, i),
    decreases i,
{
    if i > 0 {
        lemma_first_match_skip(s, r, i - 1);
    }
}

proof fn lemma_first_match_bounds(s: Seq<Monitor>, r: Rect, i: int)
    requires
        0 <= i <= s.len(),
    ensures
        first_match_from(s, r, i) == -1 || (i <= first_match_from(s, r, i) < s.len()
            && s[first_match_from(s, r, i)].rect == r),
    decreases s.len() - i,
{
    if i < s.len() && s[i].rect != r {
        lemma_first_match_bounds(s, r, i + 1);
    }
}

/// The first match is at `i` exactly when `s[i]` matches and nothing before
/// it does.
pub proof fn lemma_first_match_found(s: Seq<Monitor>, r: Rect, i: int)
    requires
        0 <= i < s.len(),
        s[i].rect == r,
        forall|k: int| 0 <= k < i ==> s[k].rect != r,
    ensures
        first_match_index(s, r) == i,
{
    lemma_first_match_skip(s, r, i);
}

/// A rectangle that matches no monitor in the sequence has no first match.
pub proof fn lemma_first_match_none(s: Seq<Monitor>, r: Rect)
    requires
        forall|k: int| 0 <= k < s.len() ==> s[k].rect != r,
    ensures
        first_match_index(s, r) == -1,
{
    lemma_first_match_skip(s, r, s.len() as int);
}

/// A single-display topology: whatever the direction, the neighbor of the
/// only display is that display itself, so relocation is a guaranteed no-op.
pub proof fn lemma_adjacent_single_display(s: Seq<Monitor>, current: Monitor, direction: Direction)
    requires
        s.len() == 1,
        s[0] == current,
    ensures
        adjacent_in_sorted_spec(s, current, direction) == current,
{
}

/// The clamped neighbor walk on an ordered topology of pairwise distinct
/// rectangles: going Right from position `i` lands on position `i + 1`, or
/// stays at `i` when it is already the last; symmetrically for Left. The walk
/// never wraps around.
pub proof fn lemma_adjacent_sorted_walk(s: Seq<Monitor>, i: int, direction: Direction)
    requires
        sorted_by_left(s),
        0 <= i < s.len(),
        forall|j: int, k: int| 0 <= j < k < s.len() ==> s[j].rect != s[k].rect,
    ensures
        direction is Right && i + 1 < s.len() ==> adjacent_in_sorted_spec(s, s[i], direction) == s[i + 1],
        direction is Right && i + 1 == s.len() ==> adjacent_in_sorted_spec(s, s[i], direction) == s[i],
        direction is Left && i > 0 ==> adjacent_in_sorted_spec(s, s[i], direction) == s[i - 1],
        direction is Left && i == 0 ==> adjacent_in_sorted_spec(s, s[i], direction) == s[i],
{
    assert forall|k: int| 0 <= k < i implies s[k].rect != s[i].rect by {
        assert(s[k].rect != s[i].rect);
    }
    lemma_first_match_found(s, s[i].rect, i);
}

/// Orders the monitors by the left edge of their rectangles (insertion sort;
/// equal left edges keep no particular order, only a deterministic one).
pub fn sort_monitors_by_left(v: &Vec<Monitor>) -> (r: Vec<Monitor>)
    ensures
        sorted_by_left(r@),
        r@.to_multiset() == v@.to_multiset(),
{
    let mut r: Vec<Monitor> = Vec::new();
    proof {
        assert(r@ =~= v@.take(0));
    }
    let mut i: usize = 0;
    while i < v.len()
        invariant
            i <= v@.len(),
            sorted_by_left(r@),
            r@.to_multiset() == v@.take(i as int).to_multiset(),
        decreases v@.len() - i,
    {
        let x = v[i];
        let ghost prev = r@;
        let mut p: usize = 0;
        while p < r.len() && r[p].rect.left <= x.rect.left
            invariant
                p <= r@.len(),
                r@ == prev,
                forall|k: int| 0 <= k < p ==> r@[k].rect.left <= x.rect.left,
            decreases r@.len() - p,
        {
            p += 1;
        }
        r.insert(p, x);
        proof {
            assert(r@ == prev.insert(p as int, x));
            assert forall|a: int, b: int| 0 <= a < b < r@.len() implies r@[a].rect.left
                <= r@[b].rect.left by {
                if a < p {
                    assert(r@[a] == prev[a]);
                } else if a == p {
                    assert(r@[a] == x);
                } else {
                    assert(r@[a] == prev[a - 1]);
                }
                if b < p {
                    assert(r@[b] == prev[b]);
                } else if b == p {
                    assert(r@[b] == x);
                } else {
                    assert(r@[b] == prev[b - 1]);
                }
            }
            vstd::seq_lib::to_multiset_insert(prev, p as int, x);
            assert(v@.take(i as int + 1) =~= v@.take(i as int).push(x));
        }
        i += 1;
    }
    proof {
        assert(v@.take(i as int) =~= v@);
    }
    r
}

/// The clamped neighbor walk itself, on a sequence already ordered by left
/// edge: scans for the first monitor whose rectangle equals `current`'s and
/// steps one position in `direction`, staying put at either end and falling
/// back to `current` when nothing matches.
pub fn adjacent_in_sorted(sorted: &Vec<Monitor>, current: &Monitor, direction: Direction) -> (r: Monitor)
    ensures
        r == adjacent_in_sorted_spec(sorted@, *current, direction),
{
    let mut j: usize = 0;
    while j < sorted.len()
        invariant
            j <= sorted@.len(),
            forall|k: int| 0 <= k < j ==> sorted@[k].rect != current.rect,
        decreases sorted@.len() - j,
    {
        if sorted[j].rect == current.rect {
            proof {
                lemma_first_match_found(sorted@, current.rect, j as int);
            }
            match direction {
                Direction::Left => {
                    if j > 0 {
                        return sorted[j - 1];
                    } else {
                        return sorted[j];
                    }
                },
                Direction::Right => {
                    if j + 1 < sorted.len() {
                        return sorted[j + 1];
                    } else {
                        return sorted[j];
                    }
                },
            }
        }
        j += 1;
    }
    proof {
        lemma_first_match_none(sorted@, current.rect);
    }
    *current
}

/// Answers which display is immediately left or right of `current` among the
/// live displays `all`: `all` is ordered by left edge and the walk steps one
/// position without wrapping. When no live display matches `current`'s
/// rectangle -- including the empty topology and a display unplugged between
/// capture and lookup -- the result is `current` itself.
pub fn adjacent(current: &Monitor, direction: Direction, all: &Vec<Monitor>) -> (r: Monitor)
    ensures
        exists|s: Seq<Monitor>|
            sorted_by_left(s) && s.to_multiset() == all@.to_multiset() && r
                == adjacent_in_sorted_spec(s, *current, direction),
        (forall|i: int| 0 <= i < all@.len() ==> all@[i].rect != current.rect) ==> r == *current,
        (all@.len() == 1 && all@[0] == *current) ==> r == *current,
        r == *current || all@.contains(r),
{
    let sorted = sort_monitors_by_left(all);
    let r = adjacent_in_sorted(&sorted, current, direction);
    proof {
        let s = sorted@;
        assert(sorted_by_left(s) && s.to_multiset() == all@.to_multiset() && r
            == adjacent_in_sorted_spec(s, *current, direction));
        assert forall|k: int| 0 <= k < s.len() implies all@.contains(s[k]) by {
            assert(s.contains(s[k]));
            assert(all@.to_multiset().count(s[k]) > 0);
        }
        if forall|i: int| 0 <= i < all@.len() ==> all@[i].rect != current.rect {
            assert forall|k: int| 0 <= k < s.len() implies s[k].rect != current.rect by {
                let w = choose|w: int| 0 <= w < all@.len() && all@[w] == s[k];
                assert(all@[w].rect != current.rect);
            }
            lemma_first_match_none(s, current.rect);
        }
        if all@.len() == 1 && all@[0] == *current {
            assert(s.to_multiset().len() == s.len());
            assert(all@.to_multiset().len() == all@.len());
            assert(s.len() == 1);
            assert(all@.contains(s[0]));
            assert(s[0] == *current);
            lemma_adjacent_single_display(s, *current, direction);
        }
        lemma_first_match_bounds(s, current.rect, 0);
    }
    r
}

} // verus!
