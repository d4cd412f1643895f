use vstd::prelude::*;

verus! {

/// Wrapper that lets a worker whose hooks cannot fail be run as a fallible
/// worker: every hook of the wrapper reports success.
pub struct InfallibleWorker<W> {
    inner: W,
}

impl<W> InfallibleWorker<W> {
    /// The wrapped worker.
    pub closed spec fn spec_inner(&self) -> W {
        self.inner
    }

    /// Wraps a worker.
    pub fn new(worker: W) -> (w: InfallibleWorker<W>)
        ensures
            w.spec_inner() == worker,
    {
        InfallibleWorker { inner: worker }
    }

    /// Returns a reference to the wrapped worker.
    pub fn inner(&self) -> (r: &W)
        ensures
            *r == self.spec_inner(),
    {
        &self.inner
    }

    /// Returns a mutable reference to the wrapped worker.
    pub fn inner_mut(&mut self) -> (r: &mut W)
        ensures
            *r == old(self).spec_inner(),
            final(self).spec_inner() == *final(r),
    {
        &mut self.inner
    }

    /// Consumes the wrapper and returns the wrapped worker.
    pub fn into_inner(self) -> (w: W)
        ensures
            w == self.spec_inner(),
    {
        self.inner
    }
}

} // verus!
