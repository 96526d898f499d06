//! Types to track the lifetime of types which may be cloned.
//!
//! This module defines two types:
//! - [`Liveness`]: used to test if all of its handles have been dropped.
//! - [`Alive`]: a handle which, while alive, ensures [`Liveness`] does not report being dropped.

use std::sync::Arc;

use vstd::prelude::*;

verus! {

/// A counted reference to an allocation, an `Arc` of std.
#[verifier::external_body]
pub struct Shared(Arc<()>);

/// The allocation that a reference refers to.
///
/// It is fixed when the reference is made. It tells only that two references refer to the same
/// allocation: nothing is said of where it is, nor that two of them differ.
pub uninterp spec fn allocation(shared: Shared) -> nat;

/// A reference to an allocation of its own, from `Arc::new` of std.
///
/// Nothing is claimed of which allocation it is.
#[verifier::external_body]
fn allocate() -> (r: Shared) {
    Shared(Arc::new(()))
}

/// A further reference to the same allocation, from `Arc::clone` of std.
#[verifier::external_body]
fn share(shared: &Shared) -> (r: Shared)
    ensures
        allocation(r) == allocation(*shared),
{
    Shared(Arc::clone(&shared.0))
}

/// How many references to the same allocation there are, from `Arc::strong_count` of std.
///
/// The argument is one of them, so there is at least one. How many more there are is not a
/// function of the argument.
#[verifier::external_body]
fn strong_count(shared: &Shared) -> (r: usize)
    ensures
        r >= 1,
{
    Arc::strong_count(&shared.0)
}

/// Tells whether all handles have been dropped.
pub struct Liveness(Shared);

/// A handle.
pub struct Alive(Shared);

/// Whether a number of references, of which one is not a handle, has no handle among them.
pub fn all_released(references: usize) -> (r: bool)
    requires
        references >= 1,
    ensures
        r <==> references == 1,
{
    references == 1
}

impl Alive {
    /// The allocation that the handle refers to.
    pub closed spec fn kept(&self) -> nat {
        allocation(self.0)
    }
}

impl Clone for Alive {
    /// A further handle of the same tracker.
    fn clone(&self) -> (r: Self)
        ensures
            r.kept() == self.kept(),
    {
        Alive(share(&self.0))
    }
}

impl Liveness {
    /// The allocation whose references the tracker counts.
    pub closed spec fn counted(&self) -> nat {
        allocation(self.0)
    }

    /// Counting the references, those of the handles and that of the tracker, can give this number.
    pub closed spec fn can_count(&self, references: usize) -> bool {
        call_ensures(strong_count, (&self.0,), references)
    }

    /// A tracker and the first handle, which is one that the tracker counts.
    pub fn new() -> (r: (Liveness, Alive))
        ensures
            r.0.counted() == r.1.kept(),
    {
        let shared: Shared = allocate();
        let handle: Shared = share(&shared);
        (Liveness(shared), Alive(handle))
    }

    /// Returns whether all handles have been dropped.
    ///
    /// The references are counted at run time. Whatever number comes back, all handles have been
    /// dropped if and only if the reference of the tracker is the only one.
    pub fn is_dropped(&self) -> (r: bool)
        ensures
            exists|references: usize| #[trigger]
                self.can_count(references) && r == (references == 1),
    {
        // A call through a value, so that the contract can speak of what it returned.
        let count = strong_count;
        let references: usize = count(&self.0);
        assert(self.can_count(references));
        all_released(references)
    }
}

} // verus!
