//! The effectors that assert or release idle inhibition, and the dry-run one that only records
//! the requested state.

use vstd::prelude::*;

verus! {

/// Failure of a backend to assert or release inhibition.
#[derive(Clone, Debug, PartialEq, Eq)]
pub struct InhibitError {
    pub message: String,
}

/// A backend that asserts and releases idle inhibition. Both calls are idempotent.
pub trait IdleInhibitor {
    /// Whether the backend currently holds inhibition.
    spec fn holds_inhibition(&self) -> bool;

    /// Asserts inhibition; does nothing when it is already held.
    fn inhibit(&mut self) -> (r: Result<(), InhibitError>)
        ensures
            r is Ok ==> final(self).holds_inhibition(),
    ;

    /// Releases inhibition; does nothing when it is not held.
    fn uninhibit(&mut self) -> (r: Result<(), InhibitError>)
        ensures
            r is Ok ==> !final(self).holds_inhibition(),
    ;

    /// Asserts or releases inhibition as `inhibit` says.
    fn set_inhibit_idle(&mut self, inhibit: bool) -> (r: Result<(), InhibitError>)
        ensures
            r is Ok ==> final(self).holds_inhibition() == inhibit,
    {
        if inhibit {
            self.inhibit()
        } else {
            self.uninhibit()
        }
    }
}

/// A backend that only records the requested state.
#[derive(Debug)]
pub struct DryRunIdleInhibitor {
    is_idle_inhibited: bool,
}

impl DryRunIdleInhibitor {
    /// A dry-run backend that does not hold inhibition.
    pub fn new() -> (r: Self)
        ensures
            !r.holds_inhibition(),
    {
        DryRunIdleInhibitor { is_idle_inhibited: false }
    }

    /// Whether inhibition is recorded as held.
    pub fn is_idle_inhibited(&self) -> (r: bool)
        ensures
            r == self.holds_inhibition(),
    {
        self.is_idle_inhibited
    }
}

impl IdleInhibitor for DryRunIdleInhibitor {
    closed spec fn holds_inhibition(&self) -> bool {
        self.is_idle_inhibited
    }

    /// Always succeeds.
    fn inhibit(&mut self) -> (r: Result<(), InhibitError>)
        ensures
            r is Ok,
            final(self).holds_inhibition(),
    {
        self.is_idle_inhibited = true;
        Ok(())
    }

    /// Always succeeds.
    fn uninhibit(&mut self) -> (r: Result<(), InhibitError>)
        ensures
            r is Ok,
            !final(self).holds_inhibition(),
    {
        self.is_idle_inhibited = false;
        Ok(())
    }
}

} // verus!
