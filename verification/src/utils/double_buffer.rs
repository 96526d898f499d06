//! Double buffered values.

use vstd::prelude::*;

verus! {

/// A state that can be double buffered.
pub trait DoubleBufferable: Default {
    /// Whether merging this state into `before` may give `after`.
    spec fn merges(&self, before: &Self, after: &Self) -> bool;

    /// Merges this state into `into`.
    fn merge_into(&self, into: &mut Self)
        ensures
            self.merges(old(into), final(into)),
    ;
}

/// Merging a state into some default may give `after`.
pub open spec fn merges_with_default<T: DoubleBufferable>(state: &T, after: &T) -> bool {
    exists|before: T|
        call_ensures(T::default, (), before) && #[trigger] state.merges(&before, after)
}

/// Container for double buffered values.
///
/// A change is made to the pending value and becomes current when it is applied.
#[derive(Debug)]
pub struct DoubleBuffered<T> {
    pending: T,
    current: Option<T>,
}

impl<T> DoubleBuffered<T> {
    /// The value that is being changed.
    pub closed spec fn pending_spec(&self) -> T {
        self.pending
    }

    /// The value that was last applied, if any was.
    pub closed spec fn current_spec(&self) -> Option<T> {
        self.current
    }
}

impl<T: DoubleBufferable> DoubleBuffered<T> {
    /// A container whose pending value is the default and to which nothing was applied yet.
    pub fn new() -> (r: Self)
        ensures
            call_ensures(T::default, (), r.pending_spec()),
            r.current_spec() is None,
    {
        DoubleBuffered { pending: T::default(), current: None }
    }

    /// The value that is being changed.
    pub fn pending(&self) -> (r: &T)
        ensures
            *r == self.pending_spec(),
    {
        &self.pending
    }

    /// The value that is being changed, to change it. What is current does not change.
    pub fn pending_mut(&mut self) -> (r: &mut T)
        ensures
            *r == old(self).pending_spec(),
            final(self).pending_spec() == *final(r),
            final(self).current_spec() == old(self).current_spec(),
    {
        &mut self.pending
    }

    /// The value that was last applied, if any was.
    pub fn current(&self) -> (r: Option<&T>)
        ensures
            r is Some <==> self.current_spec() is Some,
            r is Some ==> *r->0 == self.current_spec()->0,
    {
        self.current.as_ref()
    }

    /// Merges the pending value into the current one and returns the result.
    ///
    /// Where there is no current value yet, the default stands in for it.
    pub fn apply_pending(&mut self) -> (r: &T)
        ensures
            final(self).pending_spec() == old(self).pending_spec(),
            final(self).current_spec() == Some(*r),
            match old(self).current_spec() {
                Some(before) => old(self).pending_spec().merges(&before, r),
                None => merges_with_default(&old(self).pending_spec(), r),
            },
    {
        let mut target: T = match self.current.take() {
            Some(value) => value,
            None => T::default(),
        };
        let ghost before = target;
        self.pending.merge_into(&mut target);
        assert(old(self).pending_spec().merges(&before, &target));
        assert(match old(self).current_spec() {
            Some(value) => before == value,
            None => call_ensures(T::default, (), before),
        });
        self.current = Some(target);
        match &self.current {
            Some(value) => value,
            None => &self.pending,
        }
    }
}

} // verus!
