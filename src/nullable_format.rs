//! Properties that may be null.
//!
//! JSON tells an absent property from one that is present: `Option` holds
//! that. A present property may still be `null`: `Nullable` holds that. So
//! an optional, nullable property is an `Option<Nullable<T>>`, with three
//! states: absent, null, or a value.
use vstd::prelude::*;

verus! {

/// A value that may be null.
#[derive(Debug, Clone, Copy, PartialEq, Eq, PartialOrd, Ord, Hash)]
pub enum Nullable<T> {
    /// Null.
    Null,
    /// A value.
    Present(T),
}

impl<T> Nullable<T> {
    /// Tests for null.
    pub fn is_null(&self) -> (r: bool)
        ensures
            r == (*self is Null),
    {
        match self {
            Nullable::Null => true,
            Nullable::Present(_) => false,
        }
    }

    /// Tests for a value.
    pub fn is_present(&self) -> (r: bool)
        ensures
            r == (*self is Present),
    {
        match self {
            Nullable::Null => false,
            Nullable::Present(_) => true,
        }
    }

    /// Borrows the value, if there is one.
    pub fn as_ref(&self) -> (r: Nullable<&T>)
        ensures
            *self is Null ==> r is Null,
            *self is Present ==> r == Nullable::Present(&self->Present_0),
    {
        match self {
            Nullable::Null => Nullable::Null,
            Nullable::Present(v) => Nullable::Present(v),
        }
    }

    /// The value; it must be there.
    pub fn unwrap(self) -> (r: T)
        requires
            self is Present,
        ensures
            r == self->Present_0,
    {
        match self {
            Nullable::Present(v) => v,
            Nullable::Null => vstd::pervasive::unreached(),
        }
    }

    /// The value, or `default` when null.
    pub fn unwrap_or(self, default: T) -> (r: T)
        ensures
            self is Null ==> r == default,
            self is Present ==> r == self->Present_0,
    {
        match self {
            Nullable::Present(v) => v,
            Nullable::Null => default,
        }
    }

    /// The value as `Ok`, or `err` when null.
    pub fn ok_or<E>(self, err: E) -> (r: Result<T, E>)
        ensures
            self is Null ==> r == Err::<T, E>(err),
            self is Present ==> r == Ok::<T, E>(self->Present_0),
    {
        match self {
            Nullable::Present(v) => Ok(v),
            Nullable::Null => Err(err),
        }
    }

    /// `other` when this holds a value, else null.
    pub fn and<U>(self, other: Nullable<U>) -> (r: Nullable<U>)
        ensures
            self is Null ==> r is Null,
            self is Present ==> r == other,
    {
        match self {
            Nullable::Present(_) => other,
            Nullable::Null => Nullable::Null,
        }
    }

    /// This when it holds a value, else `other`.
    pub fn or(self, other: Nullable<T>) -> (r: Nullable<T>)
        ensures
            self is Present ==> r == self,
            self is Null ==> r == other,
    {
        match self {
            Nullable::Present(v) => Nullable::Present(v),
            Nullable::Null => other,
        }
    }

    /// Takes the value out, leaving null.
    pub fn take(&mut self) -> (r: Nullable<T>)
        ensures
            r == *old(self),
            *final(self) is Null,
    {
        let mut r = Nullable::Null;
        core::mem::swap(self, &mut r);
        r
    }

    /// The value as an `Option`: null becomes `None`.
    pub fn into_option(self) -> (r: Option<T>)
        ensures
            self is Null ==> r is None,
            self is Present ==> r == Some(self->Present_0),
    {
        match self {
            Nullable::Present(v) => Some(v),
            Nullable::Null => None,
        }
    }

    /// `None` becomes null.
    pub fn from_option(o: Option<T>) -> (r: Nullable<T>)
        ensures
            o is None ==> r is Null,
            o is Some ==> r == Nullable::Present(o->0),
    {
        match o {
            Some(v) => Nullable::Present(v),
            None => Nullable::Null,
        }
    }
}

} // verus!
