//! An asset registry: assets are registered once and found again by handle.
//!
//! A registry never forgets an asset. A handle is the position at which its
//! asset was registered, so every registration hands out a handle that no
//! earlier registration of the same registry has handed out.

use vstd::prelude::*;

verus! {

/// A reference to an asset of one registry.
#[derive(Clone, Copy, Debug, PartialEq, Eq, Structural)]
pub struct Handle {
    pub index: usize,
}

/// The assets of one kind, in the order of their registration.
#[derive(Debug)]
pub struct Assets<T> {
    items: Vec<T>,
}

impl<T> View for Assets<T> {
    type V = Seq<T>;

    closed spec fn view(&self) -> Seq<T> {
        self.items@
    }
}

impl<T> Assets<T> {
    /// Whether `handle` refers to an asset of this registry.
    pub open spec fn has(&self, handle: Handle) -> bool {
        handle.index < self@.len()
    }

    /// A registry without assets.
    pub fn new() -> (assets: Self)
        ensures
            assets@ == Seq::<T>::empty(),
    {
        Assets { items: Vec::new() }
    }

    /// A registry holds no more assets than the machine can index.
    pub proof fn lemma_len_fits(&self)
        ensures
            self@.len() <= usize::MAX,
    {
        assert(self.items@.len() == self.items.len());
    }

    /// The number of assets registered so far.
    pub fn len(&self) -> (n: usize)
        ensures
            n == self@.len(),
    {
        self.items.len()
    }

    /// Adds `asset` behind all earlier assets and returns the handle that now
    /// refers to it.
    pub fn register(&mut self, asset: T) -> (handle: Handle)
        ensures
            final(self)@ == old(self)@.push(asset),
            handle.index == old(self)@.len(),
    {
        let index: usize = self.items.len();
        self.items.push(asset);
        Handle { index }
    }

    /// The asset that `handle` refers to, if this registry issued the handle.
    pub fn get(&self, handle: Handle) -> (asset: Option<&T>)
        ensures
            self.has(handle) ==> asset == Some(&self@[handle.index as int]),
            !self.has(handle) ==> asset is None,
    {
        if handle.index < self.items.len() {
            Some(&self.items[handle.index])
        } else {
            None
        }
    }
}

/// A registration keeps every earlier handle valid and bound to its asset,
/// and the new handle differs from each of them.
pub proof fn lemma_register_fresh<T>(before: Seq<T>, asset: T, earlier: Handle)
    requires
        earlier.index < before.len(),
    ensures
        before.push(asset)[earlier.index as int] == before[earlier.index as int],
        before.push(asset)[before.len() as int] == asset,
        earlier.index != before.len(),
{
}

} // verus!
