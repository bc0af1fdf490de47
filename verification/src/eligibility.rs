//! The window-eligibility policy: whether a window may be relocated at all.
//! It is the only gate keeping the relocation logic away from the desktop,
//! the shell, tool palettes, and this program's own surfaces.
//!
//! The checks run on a snapshot of live window state. The surrounding program
//! resolves a child or owned window to the root of its ownership chain first
//! and fills the snapshot's style, process and rectangle fields from that
//! root; only the handle field is the window as the OS handed it out.

use vstd::prelude::*;

use crate::geometry::Rect;

verus! {

/// Style bit that marks a window with a standard title bar.
pub const WS_CAPTION: u32 = 0x00C0_0000;

/// Extended-style bit that marks an auxiliary tool window.
pub const WS_EX_TOOLWINDOW: u32 = 0x0000_0080;

/// Minimum width of a window worth relocating, in device pixels.
pub const MIN_MOVABLE_WIDTH: i32 = 100;

/// Minimum height of a window worth relocating, in device pixels.
pub const MIN_MOVABLE_HEIGHT: i32 = 50;

/// A snapshot of the live window state that the eligibility policy reads.
#[derive(Clone, Copy, Debug)]
pub struct WindowSnapshot {
    /// The handle as the OS reported the window; zero stands for a null handle.
    pub handle: u64,
    /// Style bits of the root window of the ownership chain.
    pub style: u32,
    /// Extended-style bits of the root window.
    pub ex_style: u32,
    /// Identifier of the process owning the root window.
    pub owner_pid: u32,
    /// Bounding rectangle of the root window; `None` when the query failed.
    pub rect: Option<Rect>,
}

/// The eligibility policy: a window may be moved exactly when its handle is
/// not null, it has a standard title bar, it is not flagged as a tool window,
/// it belongs to some other process than `own_pid`, its rectangle could be
/// read, and that rectangle is at least 100 by 50 device pixels.
pub open spec fn spec_movable(w: WindowSnapshot, own_pid: u32) -> bool {
    &&& w.handle != 0
    &&& w.style & WS_CAPTION != 0
    &&& w.ex_style & WS_EX_TOOLWINDOW == 0
    &&& w.owner_pid != own_pid
    &&& w.rect matches Some(r)
    &&& r.right - r.left >= MIN_MOVABLE_WIDTH
    &&& r.bottom - r.top >= MIN_MOVABLE_HEIGHT
}

/// Decides whether the window in the snapshot is a legitimate, user-owned,
/// appropriately sized top-level window this program may relocate. Each
/// disqualification short-circuits; the function has no side effects.
pub fn is_movable(w: &WindowSnapshot, own_pid: u32) -> (movable: bool)
    ensures
        movable == spec_movable(*w, own_pid),
{
    if w.handle == 0 {
        return false;
    }
    if w.style & WS_CAPTION == 0 {
        return false;
    }
    if w.ex_style & WS_EX_TOOLWINDOW != 0 {
        return false;
    }
    if w.owner_pid == own_pid {
        return false;
    }
    match w.rect {
        None => false,
        Some(r) => {
            let width = r.right as i64 - r.left as i64;
            let height = r.bottom as i64 - r.top as i64;
            width >= MIN_MOVABLE_WIDTH as i64 && height >= MIN_MOVABLE_HEIGHT as i64
        },
    }
}

} // verus!
