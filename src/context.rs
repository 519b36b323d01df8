//! Request contexts: typed lists of per-request values that travel with a
//! request through a chain of services.
//!
//! A context is a list built from `ContextBuilder` nodes and ends in
//! `EmptyContext`. `Has`, `Pop` and `Push` read, take and add values by their
//! type; a lookup starts at the outermost node, so a value pushed later
//! shadows an earlier value of the same type.
use crate::auth::{AuthData, Authorization};
use crate::header::XSpanIdString;
use vstd::prelude::*;

verus! {

/// Read and replace the value of type `T` that a context holds.
pub trait Has<T>: Sized {
    /// The value of type `T` held by the context (the outermost one).
    spec fn held(&self) -> T;

    /// The context with that value replaced by `value`.
    spec fn with_held(&self, value: T) -> Self;

    /// Borrows the value.
    fn get(&self) -> (r: &T)
        ensures
            *r == self.held(),
    ;

    /// Borrows the value mutably.
    fn get_mut(&mut self) -> (r: &mut T)
        ensures
            *r == old(self).held(),
            *final(self) == old(self).with_held(*final(r)),
    ;

    /// Replaces the value.
    fn set(&mut self, value: T)
        ensures
            *final(self) == old(self).with_held(value),
    ;
}

/// Take the value of type `T` out of a context, which changes its type.
pub trait Pop<T>: Sized {
    /// The context that remains after the value has been taken.
    type Result;

    /// The value that `pop` takes.
    spec fn popped(&self) -> T;

    /// The context that `pop` leaves.
    spec fn remainder(&self) -> Self::Result;

    /// Takes the value out.
    fn pop(self) -> (r: (T, Self::Result))
        ensures
            r.0 == self.popped(),
            r.1 == self.remainder(),
    ;
}

/// Add a value of type `T` to a context, which changes its type.
pub trait Push<T>: Sized {
    /// The context that results from adding the value.
    type Result;

    /// The context that `push` returns.
    spec fn pushed(&self, value: T) -> Self::Result;

    /// Adds the value as the new outermost node.
    fn push(self, value: T) -> (r: Self::Result)
        ensures
            r == self.pushed(value),
    ;
}

/// A node of a context list: one value and the rest of the list.
#[derive(Debug, Clone, Default, PartialEq, Eq)]
pub struct ContextBuilder<T, C> {
    pub head: T,
    pub tail: C,
}

/// The empty context, which holds nothing.
#[derive(Debug, Clone, Copy, PartialEq, Eq)]
pub struct EmptyContext;

impl Default for EmptyContext {
    fn default() -> (r: EmptyContext)
        ensures
            r == EmptyContext,
    {
        EmptyContext
    }
}

/// An API bound to the context that its calls carry.
#[derive(Debug)]
pub struct ContextWrapper<'a, T, C> {
    api: &'a T,
    context: C,
}

impl<'a, T, C> ContextWrapper<'a, T, C> {
    /// Binds `api` to `context`.
    pub fn new(api: &'a T, context: C) -> (r: ContextWrapper<'a, T, C>)
        ensures
            r.api_view() == *api,
            r.context_view() == context,
    {
        ContextWrapper { api, context }
    }

    /// The bound API.
    pub closed spec fn api_view(&self) -> T {
        *self.api
    }

    /// The bound context.
    pub closed spec fn context_view(&self) -> C {
        self.context
    }

    /// Borrows the API.
    pub fn api(&self) -> (r: &T)
        ensures
            *r == self.api_view(),
    {
        self.api
    }

    /// Borrows the context.
    pub fn context(&self) -> (r: &C)
        ensures
            *r == self.context_view(),
    {
        &self.context
    }
}

impl<'a, T, C: Clone> Clone for ContextWrapper<'a, T, C> {
    fn clone(&self) -> Self {
        ContextWrapper { api: self.api, context: self.context.clone() }
    }
}

/// Binds any API to a context.
pub trait ContextWrapperExt<'a, C>: Sized {
    /// Binds this API to `context`.
    fn with_context(&'a self, context: C) -> (r: ContextWrapper<'a, Self, C>)
        ensures
            r.api_view() == *self,
            r.context_view() == context,
    {
        ContextWrapper::<Self, C>::new(self, context)
    }
}

impl Push<XSpanIdString> for EmptyContext {
    type Result = ContextBuilder<XSpanIdString, EmptyContext>;

    open spec fn pushed(&self, value: XSpanIdString) -> ContextBuilder<XSpanIdString, EmptyContext> {
        ContextBuilder { head: value, tail: EmptyContext }
    }

    fn push(self, value: XSpanIdString) -> (r: ContextBuilder<XSpanIdString, EmptyContext>) {
        ContextBuilder { head: value, tail: EmptyContext }
    }
}

impl<T, C> Push<XSpanIdString> for ContextBuilder<T, C> {
    type Result = ContextBuilder<XSpanIdString, ContextBuilder<T, C>>;

    open spec fn pushed(&self, value: XSpanIdString) -> ContextBuilder<XSpanIdString, ContextBuilder<T, C>> {
        ContextBuilder { head: value, tail: *self }
    }

    fn push(self, value: XSpanIdString) -> (r: ContextBuilder<XSpanIdString, ContextBuilder<T, C>>) {
        ContextBuilder { head: value, tail: self }
    }
}

impl<C> Has<XSpanIdString> for ContextBuilder<XSpanIdString, C> {
    open spec fn held(&self) -> XSpanIdString {
        self.head
    }

    open spec fn with_held(&self, value: XSpanIdString) -> Self {
        ContextBuilder { head: value, tail: self.tail }
    }

    fn get(&self) -> (r: &XSpanIdString) {
        &self.head
    }

    fn get_mut(&mut self) -> (r: &mut XSpanIdString) {
        &mut self.head
    }

    fn set(&mut self, value: XSpanIdString) {
        self.head = value;
    }
}

impl<C> Pop<XSpanIdString> for ContextBuilder<XSpanIdString, C> {
    type Result = C;

    open spec fn popped(&self) -> XSpanIdString {
        self.head
    }

    open spec fn remainder(&self) -> C {
        self.tail
    }

    fn pop(self) -> (r: (XSpanIdString, C)) {
        (self.head, self.tail)
    }
}

impl Push<Option<AuthData>> for EmptyContext {
    type Result = ContextBuilder<Option<AuthData>, EmptyContext>;

    open spec fn pushed(&self, value: Option<AuthData>) -> ContextBuilder<Option<AuthData>, EmptyContext> {
        ContextBuilder { head: value, tail: EmptyContext }
    }

    fn push(self, value: Option<AuthData>) -> (r: ContextBuilder<Option<AuthData>, EmptyContext>) {
        ContextBuilder { head: value, tail: EmptyContext }
    }
}

impl<T, C> Push<Option<AuthData>> for ContextBuilder<T, C> {
    type Result = ContextBuilder<Option<AuthData>, ContextBuilder<T, C>>;

    open spec fn pushed(&self, value: Option<AuthData>) -> ContextBuilder<Option<AuthData>, ContextBuilder<T, C>> {
        ContextBuilder { head: value, tail: *self }
    }

    fn push(self, value: Option<AuthData>) -> (r: ContextBuilder<Option<AuthData>, ContextBuilder<T, C>>) {
        ContextBuilder { head: value, tail: self }
    }
}

impl<C> Has<Option<AuthData>> for ContextBuilder<Option<AuthData>, C> {
    open spec fn held(&self) -> Option<AuthData> {
        self.head
    }

    open spec fn with_held(&self, value: Option<AuthData>) -> Self {
        ContextBuilder { head: value, tail: self.tail }
    }

    fn get(&self) -> (r: &Option<AuthData>) {
        &self.head
    }

    fn get_mut(&mut self) -> (r: &mut Option<AuthData>) {
        &mut self.head
    }

    fn set(&mut self, value: Option<AuthData>) {
        self.head = value;
    }
}

impl<C> Pop<Option<AuthData>> for ContextBuilder<Option<AuthData>, C> {
    type Result = C;

    open spec fn popped(&self) -> Option<AuthData> {
        self.head
    }

    open spec fn remainder(&self) -> C {
        self.tail
    }

    fn pop(self) -> (r: (Option<AuthData>, C)) {
        (self.head, self.tail)
    }
}

impl Push<Option<Authorization>> for EmptyContext {
    type Result = ContextBuilder<Option<Authorization>, EmptyContext>;

    open spec fn pushed(&self, value: Option<Authorization>) -> ContextBuilder<Option<Authorization>, EmptyContext> {
        ContextBuilder { head: value, tail: EmptyContext }
    }

    fn push(self, value: Option<Authorization>) -> (r: ContextBuilder<Option<Authorization>, EmptyContext>) {
        ContextBuilder { head: value, tail: EmptyContext }
    }
}

impl<T, C> Push<Option<Authorization>> for ContextBuilder<T, C> {
    type Result = ContextBuilder<Option<Authorization>, ContextBuilder<T, C>>;

    open spec fn pushed(&self, value: Option<Authorization>) -> ContextBuilder<Option<Authorization>, ContextBuilder<T, C>> {
        ContextBuilder { head: value, tail: *self }
    }

    fn push(self, value: Option<Authorization>) -> (r: ContextBuilder<Option<Authorization>, ContextBuilder<T, C>>) {
        ContextBuilder { head: value, tail: self }
    }
}

impl<C> Has<Option<Authorization>> for ContextBuilder<Option<Authorization>, C> {
    open spec fn held(&self) -> Option<Authorization> {
        self.head
    }

    open spec fn with_held(&self, value: Option<Authorization>) -> Self {
        ContextBuilder { head: value, tail: self.tail }
    }

    fn get(&self) -> (r: &Option<Authorization>) {
        &self.head
    }

    fn get_mut(&mut self) -> (r: &mut Option<Authorization>) {
        &mut self.head
    }

    fn set(&mut self, value: Option<Authorization>) {
        self.head = value;
    }
}

impl<C> Pop<Option<Authorization>> for ContextBuilder<Option<Authorization>, C> {
    type Result = C;

    open spec fn popped(&self) -> Option<Authorization> {
        self.head
    }

    open spec fn remainder(&self) -> C {
        self.tail
    }

    fn pop(self) -> (r: (Option<Authorization>, C)) {
        (self.head, self.tail)
    }
}

impl<C: Has<XSpanIdString>> Has<XSpanIdString> for ContextBuilder<Option<AuthData>, C> {
    open spec fn held(&self) -> XSpanIdString {
        self.tail.held()
    }

    open spec fn with_held(&self, value: XSpanIdString) -> Self {
        ContextBuilder { head: self.head, tail: self.tail.with_held(value) }
    }

    fn get(&self) -> (r: &XSpanIdString) {
        self.tail.get()
    }

    fn get_mut(&mut self) -> (r: &mut XSpanIdString) {
        self.tail.get_mut()
    }

    fn set(&mut self, value: XSpanIdString) {
        self.tail.set(value);
    }
}

impl<C: Pop<XSpanIdString>> Pop<XSpanIdString> for ContextBuilder<Option<AuthData>, C> {
    type Result = ContextBuilder<Option<AuthData>, C::Result>;

    open spec fn popped(&self) -> XSpanIdString {
        self.tail.popped()
    }

    open spec fn remainder(&self) -> ContextBuilder<Option<AuthData>, C::Result> {
        ContextBuilder { head: self.head, tail: self.tail.remainder() }
    }

    fn pop(self) -> (r: (XSpanIdString, ContextBuilder<Option<AuthData>, C::Result>)) {
        let (value, tail) = self.tail.pop();
        (value, ContextBuilder { head: self.head, tail })
    }
}

impl<C: Has<XSpanIdString>> Has<XSpanIdString> for ContextBuilder<Option<Authorization>, C> {
    open spec fn held(&self) -> XSpanIdString {
        self.tail.held()
    }

    open spec fn with_held(&self, value: XSpanIdString) -> Self {
        ContextBuilder { head: self.head, tail: self.tail.with_held(value) }
    }

    fn get(&self) -> (r: &XSpanIdString) {
        self.tail.get()
    }

    fn get_mut(&mut self) -> (r: &mut XSpanIdString) {
        self.tail.get_mut()
    }

    fn set(&mut self, value: XSpanIdString) {
        self.tail.set(value);
    }
}

impl<C: Pop<XSpanIdString>> Pop<XSpanIdString> for ContextBuilder<Option<Authorization>, C> {
    type Result = ContextBuilder<Option<Authorization>, C::Result>;

    open spec fn popped(&self) -> XSpanIdString {
        self.tail.popped()
    }

    open spec fn remainder(&self) -> ContextBuilder<Option<Authorization>, C::Result> {
        ContextBuilder { head: self.head, tail: self.tail.remainder() }
    }

    fn pop(self) -> (r: (XSpanIdString, ContextBuilder<Option<Authorization>, C::Result>)) {
        let (value, tail) = self.tail.pop();
        (value, ContextBuilder { head: self.head, tail })
    }
}

impl<C: Has<Option<AuthData>>> Has<Option<AuthData>> for ContextBuilder<XSpanIdString, C> {
    open spec fn held(&self) -> Option<AuthData> {
        self.tail.held()
    }

    open spec fn with_held(&self, value: Option<AuthData>) -> Self {
        ContextBuilder { head: self.head, tail: self.tail.with_held(value) }
    }

    fn get(&self) -> (r: &Option<AuthData>) {
        self.tail.get()
    }

    fn get_mut(&mut self) -> (r: &mut Option<AuthData>) {
        self.tail.get_mut()
    }

    fn set(&mut self, value: Option<AuthData>) {
        self.tail.set(value);
    }
}

impl<C: Pop<Option<AuthData>>> Pop<Option<AuthData>> for ContextBuilder<XSpanIdString, C> {
    type Result = ContextBuilder<XSpanIdString, C::Result>;

    open spec fn popped(&self) -> Option<AuthData> {
        self.tail.popped()
    }

    open spec fn remainder(&self) -> ContextBuilder<XSpanIdString, C::Result> {
        ContextBuilder { head: self.head, tail: self.tail.remainder() }
    }

    fn pop(self) -> (r: (Option<AuthData>, ContextBuilder<XSpanIdString, C::Result>)) {
        let (value, tail) = self.tail.pop();
        (value, ContextBuilder { head: self.head, tail })
    }
}

impl<C: Has<Option<AuthData>>> Has<Option<AuthData>> for ContextBuilder<Option<Authorization>, C> {
    open spec fn held(&self) -> Option<AuthData> {
        self.tail.held()
    }

    open spec fn with_held(&self, value: Option<AuthData>) -> Self {
        ContextBuilder { head: self.head, tail: self.tail.with_held(value) }
    }

    fn get(&self) -> (r: &Option<AuthData>) {
        self.tail.get()
    }

    fn get_mut(&mut self) -> (r: &mut Option<AuthData>) {
        self.tail.get_mut()
    }

    fn set(&mut self, value: Option<AuthData>) {
        self.tail.set(value);
    }
}

impl<C: Pop<Option<AuthData>>> Pop<Option<AuthData>> for ContextBuilder<Option<Authorization>, C> {
    type Result = ContextBuilder<Option<Authorization>, C::Result>;

    open spec fn popped(&self) -> Option<AuthData> {
        self.tail.popped()
    }

    open spec fn remainder(&self) -> ContextBuilder<Option<Authorization>, C::Result> {
        ContextBuilder { head: self.head, tail: self.tail.remainder() }
    }

    fn pop(self) -> (r: (Option<AuthData>, ContextBuilder<Option<Authorization>, C::Result>)) {
        let (value, tail) = self.tail.pop();
        (value, ContextBuilder { head: self.head, tail })
    }
}

impl<C: Has<Option<Authorization>>> Has<Option<Authorization>> for ContextBuilder<XSpanIdString, C> {
    open spec fn held(&self) -> Option<Authorization> {
        self.tail.held()
    }

    open spec fn with_held(&self, value: Option<Authorization>) -> Self {
        ContextBuilder { head: self.head, tail: self.tail.with_held(value) }
    }

    fn get(&self) -> (r: &Option<Authorization>) {
        self.tail.get()
    }

    fn get_mut(&mut self) -> (r: &mut Option<Authorization>) {
        self.tail.get_mut()
    }

    fn set(&mut self, value: Option<Authorization>) {
        self.tail.set(value);
    }
}

impl<C: Pop<Option<Authorization>>> Pop<Option<Authorization>> for ContextBuilder<XSpanIdString, C> {
    type Result = ContextBuilder<XSpanIdString, C::Result>;

    open spec fn popped(&self) -> Option<Authorization> {
        self.tail.popped()
    }

    open spec fn remainder(&self) -> ContextBuilder<XSpanIdString, C::Result> {
        ContextBuilder { head: self.head, tail: self.tail.remainder() }
    }

    fn pop(self) -> (r: (Option<Authorization>, ContextBuilder<XSpanIdString, C::Result>)) {
        let (value, tail) = self.tail.pop();
        (value, ContextBuilder { head: self.head, tail })
    }
}

impl<C: Has<Option<Authorization>>> Has<Option<Authorization>> for ContextBuilder<Option<AuthData>, C> {
    open spec fn held(&self) -> Option<Authorization> {
        self.tail.held()
    }

    open spec fn with_held(&self, value: Option<Authorization>) -> Self {
        ContextBuilder { head: self.head, tail: self.tail.with_held(value) }
    }

    fn get(&self) -> (r: &Option<Authorization>) {
        self.tail.get()
    }

    fn get_mut(&mut self) -> (r: &mut Option<Authorization>) {
        self.tail.get_mut()
    }

    fn set(&mut self, value: Option<Authorization>) {
        self.tail.set(value);
    }
}

impl<C: Pop<Option<Authorization>>> Pop<Option<Authorization>> for ContextBuilder<Option<AuthData>, C> {
    type Result = ContextBuilder<Option<AuthData>, C::Result>;

    open spec fn popped(&self) -> Option<Authorization> {
        self.tail.popped()
    }

    open spec fn remainder(&self) -> ContextBuilder<Option<AuthData>, C::Result> {
        ContextBuilder { head: self.head, tail: self.tail.remainder() }
    }

    fn pop(self) -> (r: (Option<Authorization>, ContextBuilder<Option<AuthData>, C::Result>)) {
        let (value, tail) = self.tail.pop();
        (value, ContextBuilder { head: self.head, tail })
    }
}

/// What a context of the default members shows through `Has`: its span id,
/// credentials and authorization decision.
pub open spec fn observed<L: Has<XSpanIdString> + Has<Option<AuthData>> + Has<Option<Authorization>>>(
    l: L,
) -> (XSpanIdString, Option<AuthData>, Option<Authorization>) {
    (
        Has::<XSpanIdString>::held(&l),
        Has::<Option<AuthData>>::held(&l),
        Has::<Option<Authorization>>::held(&l),
    )
}

/// The context that taking the value of type `T` out and pushing it back
/// gives.
pub open spec fn popped_and_pushed_back<T, L: Pop<T>>(l: L) -> <<L as Pop<T>>::Result as Push<T>>::Result where
    <L as Pop<T>>::Result: Push<T>,
 {
    l.remainder().pushed(l.popped())
}

/// For a context holding each default member once, pushed in any order,
/// taking any one member out with `pop` and pushing it back with `push`
/// gives a context that shows the same values through `Has`.
pub proof fn lemma_pop_push_round_trip(x: XSpanIdString, d: Option<AuthData>, z: Option<Authorization>)
    ensures
        ({
            let l = EmptyContext.pushed(x).pushed(d).pushed(z);
            observed(popped_and_pushed_back::<XSpanIdString, _>(l)) == observed(l)
        }),
        ({
            let l = EmptyContext.pushed(x).pushed(d).pushed(z);
            observed(popped_and_pushed_back::<Option<AuthData>, _>(l)) == observed(l)
        }),
        ({
            let l = EmptyContext.pushed(x).pushed(d).pushed(z);
            observed(popped_and_pushed_back::<Option<Authorization>, _>(l)) == observed(l)
        }),
        ({
            let l = EmptyContext.pushed(x).pushed(z).pushed(d);
            observed(popped_and_pushed_back::<XSpanIdString, _>(l)) == observed(l)
        }),
        ({
            let l = EmptyContext.pushed(x).pushed(z).pushed(d);
            observed(popped_and_pushed_back::<Option<AuthData>, _>(l)) == observed(l)
        }),
        ({
            let l = EmptyContext.pushed(x).pushed(z).pushed(d);
            observed(popped_and_pushed_back::<Option<Authorization>, _>(l)) == observed(l)
        }),
        ({
            let l = EmptyContext.pushed(d).pushed(x).pushed(z);
            observed(popped_and_pushed_back::<XSpanIdString, _>(l)) == observed(l)
        }),
        ({
            let l = EmptyContext.pushed(d).pushed(x).pushed(z);
            observed(popped_and_pushed_back::<Option<AuthData>, _>(l)) == observed(l)
        }),
        ({
            let l = EmptyContext.pushed(d).pushed(x).pushed(z);
            observed(popped_and_pushed_back::<Option<Authorization>, _>(l)) == observed(l)
        }),
        ({
            let l = EmptyContext.pushed(d).pushed(z).pushed(x);
            observed(popped_and_pushed_back::<XSpanIdString, _>(l)) == observed(l)
        }),
        ({
            let l = EmptyContext.pushed(d).pushed(z).pushed(x);
            observed(popped_and_pushed_back::<Option<AuthData>, _>(l)) == observed(l)
        }),
        ({
            let l = EmptyContext.pushed(d).pushed(z).pushed(x);
            observed(popped_and_pushed_back::<Option<Authorization>, _>(l)) == observed(l)
        }),
        ({
            let l = EmptyContext.pushed(z).pushed(x).pushed(d);
            observed(popped_and_pushed_back::<XSpanIdString, _>(l)) == observed(l)
        }),
        ({
            let l = EmptyContext.pushed(z).pushed(x).pushed(d);
            observed(popped_and_pushed_back::<Option<AuthData>, _>(l)) == observed(l)
        }),
        ({
            let l = EmptyContext.pushed(z).pushed(x).pushed(d);
            observed(popped_and_pushed_back::<Option<Authorization>, _>(l)) == observed(l)
        }),
        ({
            let l = EmptyContext.pushed(z).pushed(d).pushed(x);
            observed(popped_and_pushed_back::<XSpanIdString, _>(l)) == observed(l)
        }),
        ({
            let l = EmptyContext.pushed(z).pushed(d).pushed(x);
            observed(popped_and_pushed_back::<Option<AuthData>, _>(l)) == observed(l)
        }),
        ({
            let l = EmptyContext.pushed(z).pushed(d).pushed(x);
            observed(popped_and_pushed_back::<Option<Authorization>, _>(l)) == observed(l)
        }),
{
}

} // verus!
