//! A service adapter that drops the context of each request and passes the
//! bare request on, to embed a service that knows nothing of contexts.
use core::marker::PhantomData;
use vstd::prelude::*;

verus! {

/// Makes `DropContextService`s around the services that `inner` makes.
#[derive(Debug)]
pub struct DropContextMakeService<T, C> {
    inner: T,
    marker: PhantomData<C>,
}

impl<T, C> DropContextMakeService<T, C> {
    /// Wraps `inner`.
    pub fn new(inner: T) -> (r: Self)
        ensures
            r.inner() == inner,
    {
        DropContextMakeService { inner, marker: PhantomData }
    }

    /// The wrapped factory.
    pub closed spec fn inner(&self) -> T {
        self.inner
    }

    /// Borrows the wrapped factory.
    pub fn get_inner(&self) -> (r: &T)
        ensures
            *r == self.inner(),
    {
        &self.inner
    }

    /// The adapter around a service that the wrapped factory made.
    pub fn make<S>(&self, service: S) -> (r: DropContextService<S, C>)
        ensures
            r.inner() == service,
    {
        DropContextService::new(service)
    }
}

/// Passes each request on to `inner` without its context.
#[derive(Debug)]
pub struct DropContextService<T, C> {
    inner: T,
    marker: PhantomData<C>,
}

impl<T: Clone, C> Clone for DropContextService<T, C> {
    fn clone(&self) -> Self {
        DropContextService { inner: self.inner.clone(), marker: PhantomData }
    }
}

impl<T, C> DropContextService<T, C> {
    /// Wraps `inner`.
    pub fn new(inner: T) -> (r: Self)
        ensures
            r.inner() == inner,
    {
        DropContextService { inner, marker: PhantomData }
    }

    /// The wrapped service.
    pub closed spec fn inner(&self) -> T {
        self.inner
    }

    /// Borrows the wrapped service.
    pub fn get_inner(&self) -> (r: &T)
        ensures
            *r == self.inner(),
    {
        &self.inner
    }

    /// Splits a request from its context: the request goes on, the context
    /// is dropped.
    pub fn strip<R>(&self, request: (R, C)) -> (r: R)
        ensures
            r == request.0,
    {
        let (req, _context) = request;
        req
    }
}

} // verus!
