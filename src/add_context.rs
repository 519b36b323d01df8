//! A service adapter that gives each incoming request a fresh context,
//! holding the request's span id, and passes it on.
use crate::context::Push;
use crate::header::{header_text, is_v4_uuid_text, XSpanIdString};
use core::marker::PhantomData;
use vstd::prelude::*;

verus! {

/// Makes `AddContextService`s around the services that `inner` makes.
#[derive(Debug)]
pub struct AddContextMakeService<T, C> {
    inner: T,
    marker: PhantomData<C>,
}

impl<T, C> AddContextMakeService<T, C> {
    /// Wraps `inner`.
    pub fn new(inner: T) -> (r: Self)
        ensures
            r.inner() == inner,
    {
        AddContextMakeService { inner, marker: PhantomData }
    }

    /// The wrapped factory.
    pub closed spec fn inner(&self) -> T {
        self.inner
    }

    /// Borrows the wrapped factory.
    pub fn get_inner(&self) -> (r: &T)
        ensures
            *r == self.inner(),
    {
        &self.inner
    }

    /// Borrows the wrapped factory mutably.
    pub fn get_inner_mut(&mut self) -> (r: &mut T)
        ensures
            *r == old(self).inner(),
            final(self).inner() == *final(r),
    {
        &mut self.inner
    }

    /// The adapter around a service that the wrapped factory made.
    pub fn make<S>(&self, service: S) -> (r: AddContextService<S, C>)
        ensures
            r.inner() == service,
    {
        AddContextService::new(service)
    }
}

/// Gives each request a fresh context of type `C` with its span id pushed
/// onto it, and passes it on to `inner`.
#[derive(Debug)]
pub struct AddContextService<T, C> {
    inner: T,
    marker: PhantomData<C>,
}

impl<T, C> AddContextService<T, C> {
    /// Wraps `inner`.
    pub fn new(inner: T) -> (r: Self)
        ensures
            r.inner() == inner,
    {
        AddContextService { inner, marker: PhantomData }
    }

    /// The wrapped service.
    pub closed spec fn inner(&self) -> T {
        self.inner
    }

    /// Borrows the wrapped service.
    pub fn get_inner(&self) -> (r: &T)
        ensures
            *r == self.inner(),
    {
        &self.inner
    }

    /// Borrows the wrapped service mutably.
    pub fn get_inner_mut(&mut self) -> (r: &mut T)
        ensures
            *r == old(self).inner(),
            final(self).inner() == *final(r),
    {
        &mut self.inner
    }
}

impl<T, C: Default + Push<XSpanIdString>> AddContextService<T, C> {
    /// The context that a request goes on with, given the value of its
    /// `X-Span-ID` header: a new context with the span id pushed, which is
    /// the header's text, or a freshly generated id when there is none.
    pub fn context_for(header: Option<&[u8]>) -> (r: C::Result)
        ensures
            exists|c: C, id: XSpanIdString|
                r == c.pushed(id) && (header_text(header) matches Some(t) ==> id.0@ == t) && (
                header_text(header) is None ==> is_v4_uuid_text(id.0@)),
    {
        let id = XSpanIdString::get_or_generate(header);
        let c = C::default();
        let r = c.push(id);
        assert(r == c.pushed(id));
        r
    }
}

} // verus!
