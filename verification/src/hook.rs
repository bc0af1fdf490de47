//! The single owning slot for the registered keyboard-filter token: installed
//! at most once per slot, read for forwarding, and emptied exactly once at
//! teardown. Emptying an already-empty slot yields nothing, which makes
//! teardown idempotent and keeps the registration from being released twice.

use vstd::prelude::*;

verus! {

/// Holds the process-wide registration token of the installed keyboard
/// filter; the token itself is an opaque identifier owned by the OS.
pub struct HookSlot {
    token: Option<u64>,
}

impl HookSlot {
    /// The token currently held, if any.
    pub closed spec fn spec_token(self) -> Option<u64> {
        self.token
    }

    /// A slot that holds no registration yet.
    pub fn new() -> (slot: Self)
        ensures
            slot.spec_token() is None,
    {
        HookSlot { token: None }
    }

    /// Records the registration token. A slot accepts a token only while it
    /// is empty, so installation happens at most once per slot lifetime.
    pub fn install(&mut self, token: u64)
        requires
            old(self).spec_token() is None,
        ensures
            final(self).spec_token() == Some(token),
    {
        self.token = Some(token);
    }

    /// The held token, for forwarding an event to the next filter.
    pub fn current(&self) -> (token: Option<u64>)
        ensures
            token == self.spec_token(),
    {
        self.token
    }

    /// Empties the slot and hands out whatever it held. The slot is empty
    /// afterwards, so a second teardown gets `None` and releases nothing:
    /// unregistering an already-absent filter is a safe no-op.
    pub fn take(&mut self) -> (token: Option<u64>)
        ensures
            token == old(self).spec_token(),
            final(self).spec_token() is None,
    {
        let token = self.token;
        self.token = None;
        token
    }
}

} // verus!
