//! The single slot through which the host functions of one execution reach
//! the capability that serves them.

use vstd::prelude::*;

verus! {

/// Holds the capability of an execution while the execution runs. The
/// capability is bound when the execution starts and released when it ends,
/// also where it ends in a trap; whoever holds the handle exclusively holds
/// the capability for the time of one call.
pub struct SystemApiHandle<A> {
    inner: Option<A>,
}

impl<A> View for SystemApiHandle<A> {
    type V = Option<A>;

    closed spec fn view(&self) -> Option<A> {
        self.inner
    }
}

impl<A> SystemApiHandle<A> {
    /// A handle with no capability bound.
    pub fn new() -> (handle: Self)
        ensures
            handle@ is None,
    {
        Self { inner: None }
    }

    /// Whether a capability is bound.
    pub fn is_bound(&self) -> (bound: bool)
        ensures
            bound == (self@ is Some),
    {
        self.inner.is_some()
    }

    /// Binds the capability for one execution and hands back the one that was
    /// bound before, if any.
    pub fn replace(&mut self, system_api: A) -> (previous: Option<A>)
        ensures
            final(self)@ == Some(system_api),
            previous == old(self)@,
    {
        let previous = self.inner.take();
        self.inner = Some(system_api);
        previous
    }

    /// Releases the capability and hands it back.
    pub fn clear(&mut self) -> (released: Option<A>)
        ensures
            final(self)@ is None,
            released == old(self)@,
    {
        self.inner.take()
    }

    /// The capability, for the time of one call. Using the handle while
    /// nothing is bound is an error of the host, not of the guest.
    pub fn get_system_api(&mut self) -> (system_api: &mut A)
        requires
            old(self)@ is Some,
        ensures
            *system_api == old(self)@->0,
            final(self)@ == Some(*final(system_api)),
    {
        self.inner.as_mut().unwrap()
    }
}

} // verus!
