//! The slot that holds the authenticated session.

use vstd::prelude::*;

verus! {

/// Holds at most one authenticated client handle.
///
/// The store starts empty. A handle is installed by [`TokenStore::replace`],
/// which overwrites whatever was there; nothing ever empties the store again.
/// Sharing the store between tasks, and guarding it while it is swapped, is
/// left to the program that owns it.
#[derive(Clone, Debug, PartialEq, Eq)]
pub struct TokenStore<H> {
    slot: Option<H>,
}

impl<H> View for TokenStore<H> {
    type V = Option<H>;

    /// The handle that the store holds, if any.
    closed spec fn view(&self) -> Option<H> {
        self.slot
    }
}

impl<H> TokenStore<H> {
    /// What a store holds once `handle` has been installed over `before`.
    pub open spec fn installed(before: Option<H>, handle: H) -> Option<H> {
        Some(handle)
    }

    /// An empty store.
    pub fn new() -> (store: Self)
        ensures
            store@ is None,
    {
        TokenStore { slot: None }
    }

    /// Whether a handle has been installed.
    pub fn is_authenticated(&self) -> (present: bool)
        ensures
            present == (self@ is Some),
    {
        self.slot.is_some()
    }

    /// The handle that is held right now, or `None` for an empty store.
    pub fn read(&self) -> (handle: Option<&H>)
        ensures
            match handle {
                Some(h) => self@ == Some(*h),
                None => self@ is None,
            },
    {
        self.slot.as_ref()
    }

    /// Installs `handle`, dropping the one that was held before.
    pub fn replace(&mut self, handle: H)
        ensures
            final(self)@ == Self::installed(old(self)@, handle),
    {
        self.slot = Some(handle);
    }
}

/// Installing the same handle a second time changes nothing: after one
/// installation and after two the store holds exactly that handle.
pub proof fn lemma_replace_idempotent<H>(before: Option<H>, handle: H)
    ensures
        TokenStore::<H>::installed(TokenStore::<H>::installed(before, handle), handle)
            == TokenStore::<H>::installed(before, handle),
        TokenStore::<H>::installed(before, handle) == Some(handle),
{
}

/// Of two installations only the later one is seen afterwards.
pub proof fn lemma_replace_last_wins<H>(before: Option<H>, first: H, second: H)
    ensures
        TokenStore::<H>::installed(TokenStore::<H>::installed(before, first), second) == Some(
            second,
        ),
{
}

} // verus!
