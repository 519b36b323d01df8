//! OpenAPI `oneOf` and `anyOf` types, whose alternatives are types.
//!
//! A `oneOf` value is read by trying every alternative and succeeds only
//! when exactly one of them accepts the input; an `anyOf` value takes the
//! first alternative, in declared order, that accepts it.
use core::str::FromStr;
use vstd::prelude::*;

verus! {

/// The error when no alternative of a `oneOf` accepts the input.
pub const ONE_OF_NO_MATCH: &'static str = "data did not match any within oneOf";

/// The error when more than one alternative of a `oneOf` accepts the input.
pub const ONE_OF_MULTIPLE_MATCHES: &'static str = "data matched multiple within oneOf";

/// The error when no alternative of an `anyOf` accepts the input.
pub const ANY_OF_NO_MATCH: &'static str = "data did not match any within anyOf";

/// 1 when the alternative accepted the input, else 0.
pub open spec fn present<T>(o: Option<T>) -> int {
    if o is Some {
        1
    } else {
        0
    }
}

/// Relies on the `FromStr` impl of `T`: whether it accepts the text, and
/// what it makes of it, is that impl's own business.
#[verifier::external_body]
fn parse_as<T: FromStr>(x: &str) -> (r: Option<T>) {
    T::from_str(x).ok()
}

/// `OneOf1` type: models an OpenAPI `oneOf` schema with 1 alternative.
#[derive(Debug, PartialEq, Clone)]
pub enum OneOf1<A> {
    /// The `A` alternative.
    A(A),
}

impl<A> OneOf1<A> {
    /// Chooses among what each alternative made of the input, in order:
    /// succeeds only when exactly one alternative accepted it.
    pub fn from_matches(a: Option<A>) -> (r: Result<Self, &'static str>)
        ensures
            ({
                let matched = present(a);
                &&& matched == 0 ==> r == Err::<Self, &'static str>(ONE_OF_NO_MATCH)
                &&& matched > 1 ==> r == Err::<Self, &'static str>(ONE_OF_MULTIPLE_MATCHES)
                &&& a is Some && matched == 1 ==> r == Ok::<Self, &'static str>(OneOf1::A(a->0))
            }),
    {
        let mut result: Option<Self> = None;
        match a {
            Some(v) => {
                result = Some(OneOf1::A(v));
            },
            None => {},
        }
        match result {
            Some(v) => Ok(v),
            None => Err(ONE_OF_NO_MATCH),
        }
    }
}

impl<A: FromStr> FromStr for OneOf1<A> {
    type Err = &'static str;

    fn from_str(x: &str) -> Result<Self, &'static str> {
        OneOf1::from_matches(parse_as::<A>(x))
    }
}

/// `AnyOf1` type: models an OpenAPI `anyOf` schema with 1 alternative.
#[derive(Debug, PartialEq, Clone)]
pub enum AnyOf1<A> {
    /// The `A` alternative.
    A(A),
}

impl<A> AnyOf1<A> {
    /// Chooses among what each alternative made of the input: the first
    /// alternative, in declared order, that accepted it.
    pub fn from_matches(a: Option<A>) -> (r: Result<Self, &'static str>)
        ensures
            present(a) == 0 ==> r == Err::<Self, &'static str>(ANY_OF_NO_MATCH),
            a is Some ==> r == Ok::<Self, &'static str>(AnyOf1::A(a->0)),
    {
        if let Some(v) = a {
            return Ok(AnyOf1::A(v));
        }
        Err(ANY_OF_NO_MATCH)
    }
}

impl<A: FromStr> FromStr for AnyOf1<A> {
    type Err = &'static str;

    fn from_str(x: &str) -> Result<Self, &'static str> {
        AnyOf1::from_matches(parse_as::<A>(x))
    }
}

/// `OneOf2` type: models an OpenAPI `oneOf` schema with 2 alternatives.
#[derive(Debug, PartialEq, Clone)]
pub enum OneOf2<A, B> {
    /// The `A` alternative.
    A(A),
    /// The `B` alternative.
    B(B),
}

impl<A, B> OneOf2<A, B> {
    /// Chooses among what each alternative made of the input, in order:
    /// succeeds only when exactly one alternative accepted it.
    pub fn from_matches(a: Option<A>, b: Option<B>) -> (r: Result<Self, &'static str>)
        ensures
            ({
                let matched = present(a) + present(b);
                &&& matched == 0 ==> r == Err::<Self, &'static str>(ONE_OF_NO_MATCH)
                &&& matched > 1 ==> r == Err::<Self, &'static str>(ONE_OF_MULTIPLE_MATCHES)
                &&& a is Some && matched == 1 ==> r == Ok::<Self, &'static str>(OneOf2::A(a->0))
                &&& b is Some && matched == 1 ==> r == Ok::<Self, &'static str>(OneOf2::B(b->0))
            }),
    {
        let mut result: Option<Self> = None;
        match a {
            Some(v) => {
                result = Some(OneOf2::A(v));
            },
            None => {},
        }
        match b {
            Some(v) => {
                if result.is_some() {
                    return Err(ONE_OF_MULTIPLE_MATCHES);
                }
                result = Some(OneOf2::B(v));
            },
            None => {},
        }
        match result {
            Some(v) => Ok(v),
            None => Err(ONE_OF_NO_MATCH),
        }
    }
}

impl<A: FromStr, B: FromStr> FromStr for OneOf2<A, B> {
    type Err = &'static str;

    fn from_str(x: &str) -> Result<Self, &'static str> {
        OneOf2::from_matches(parse_as::<A>(x), parse_as::<B>(x))
    }
}

/// `AnyOf2` type: models an OpenAPI `anyOf` schema with 2 alternatives.
#[derive(Debug, PartialEq, Clone)]
pub enum AnyOf2<A, B> {
    /// The `A` alternative.
    A(A),
    /// The `B` alternative.
    B(B),
}

impl<A, B> AnyOf2<A, B> {
    /// Chooses among what each alternative made of the input: the first
    /// alternative, in declared order, that accepted it.
    pub fn from_matches(a: Option<A>, b: Option<B>) -> (r: Result<Self, &'static str>)
        ensures
            present(a) + present(b) == 0 ==> r == Err::<Self, &'static str>(ANY_OF_NO_MATCH),
            a is Some ==> r == Ok::<Self, &'static str>(AnyOf2::A(a->0)),
            a is None && b is Some ==> r == Ok::<Self, &'static str>(AnyOf2::B(b->0)),
    {
        if let Some(v) = a {
            return Ok(AnyOf2::A(v));
        }
        if let Some(v) = b {
            return Ok(AnyOf2::B(v));
        }
        Err(ANY_OF_NO_MATCH)
    }
}

impl<A: FromStr, B: FromStr> FromStr for AnyOf2<A, B> {
    type Err = &'static str;

    fn from_str(x: &str) -> Result<Self, &'static str> {
        AnyOf2::from_matches(parse_as::<A>(x), parse_as::<B>(x))
    }
}

/// `OneOf3` type: models an OpenAPI `oneOf` schema with 3 alternatives.
#[derive(Debug, PartialEq, Clone)]
pub enum OneOf3<A, B, C> {
    /// The `A` alternative.
    A(A),
    /// The `B` alternative.
    B(B),
    /// The `C` alternative.
    C(C),
}

impl<A, B, C> OneOf3<A, B, C> {
    /// Chooses among what each alternative made of the input, in order:
    /// succeeds only when exactly one alternative accepted it.
    pub fn from_matches(a: Option<A>, b: Option<B>, c: Option<C>) -> (r: Result<Self, &'static str>)
        ensures
            ({
                let matched = present(a) + present(b) + present(c);
                &&& matched == 0 ==> r == Err::<Self, &'static str>(ONE_OF_NO_MATCH)
                &&& matched > 1 ==> r == Err::<Self, &'static str>(ONE_OF_MULTIPLE_MATCHES)
                &&& a is Some && matched == 1 ==> r == Ok::<Self, &'static str>(OneOf3::A(a->0))
                &&& b is Some && matched == 1 ==> r == Ok::<Self, &'static str>(OneOf3::B(b->0))
                &&& c is Some && matched == 1 ==> r == Ok::<Self, &'static str>(OneOf3::C(c->0))
            }),
    {
        let mut result: Option<Self> = None;
        match a {
            Some(v) => {
                result = Some(OneOf3::A(v));
            },
            None => {},
        }
        match b {
            Some(v) => {
                if result.is_some() {
                    return Err(ONE_OF_MULTIPLE_MATCHES);
                }
                result = Some(OneOf3::B(v));
            },
            None => {},
        }
        match c {
            Some(v) => {
                if result.is_some() {
                    return Err(ONE_OF_MULTIPLE_MATCHES);
                }
                result = Some(OneOf3::C(v));
            },
            None => {},
        }
        match result {
            Some(v) => Ok(v),
            None => Err(ONE_OF_NO_MATCH),
        }
    }
}

impl<A: FromStr, B: FromStr, C: FromStr> FromStr for OneOf3<A, B, C> {
    type Err = &'static str;

    fn from_str(x: &str) -> Result<Self, &'static str> {
        OneOf3::from_matches(parse_as::<A>(x), parse_as::<B>(x), parse_as::<C>(x))
    }
}

/// `AnyOf3` type: models an OpenAPI `anyOf` schema with 3 alternatives.
#[derive(Debug, PartialEq, Clone)]
pub enum AnyOf3<A, B, C> {
    /// The `A` alternative.
    A(A),
    /// The `B` alternative.
    B(B),
    /// The `C` alternative.
    C(C),
}

impl<A, B, C> AnyOf3<A, B, C> {
    /// Chooses among what each alternative made of the input: the first
    /// alternative, in declared order, that accepted it.
    pub fn from_matches(a: Option<A>, b: Option<B>, c: Option<C>) -> (r: Result<Self, &'static str>)
        ensures
            present(a) + present(b) + present(c) == 0 ==> r == Err::<Self, &'static str>(ANY_OF_NO_MATCH),
            a is Some ==> r == Ok::<Self, &'static str>(AnyOf3::A(a->0)),
            a is None && b is Some ==> r == Ok::<Self, &'static str>(AnyOf3::B(b->0)),
            a is None && b is None && c is Some ==> r == Ok::<Self, &'static str>(AnyOf3::C(c->0)),
    {
        if let Some(v) = a {
            return Ok(AnyOf3::A(v));
        }
        if let Some(v) = b {
            return Ok(AnyOf3::B(v));
        }
        if let Some(v) = c {
            return Ok(AnyOf3::C(v));
        }
        Err(ANY_OF_NO_MATCH)
    }
}

impl<A: FromStr, B: FromStr, C: FromStr> FromStr for AnyOf3<A, B, C> {
    type Err = &'static str;

    fn from_str(x: &str) -> Result<Self, &'static str> {
        AnyOf3::from_matches(parse_as::<A>(x), parse_as::<B>(x), parse_as::<C>(x))
    }
}

/// `OneOf4` type: models an OpenAPI `oneOf` schema with 4 alternatives.
#[derive(Debug, PartialEq, Clone)]
pub enum OneOf4<A, B, C, D> {
    /// The `A` alternative.
    A(A),
    /// The `B` alternative.
    B(B),
    /// The `C` alternative.
    C(C),
    /// The `D` alternative.
    D(D),
}

impl<A, B, C, D> OneOf4<A, B, C, D> {
    /// Chooses among what each alternative made of the input, in order:
    /// succeeds only when exactly one alternative accepted it.
    pub fn from_matches(a: Option<A>, b: Option<B>, c: Option<C>, d: Option<D>) -> (r: Result<Self, &'static str>)
        ensures
            ({
                let matched = present(a) + present(b) + present(c) + present(d);
                &&& matched == 0 ==> r == Err::<Self, &'static str>(ONE_OF_NO_MATCH)
                &&& matched > 1 ==> r == Err::<Self, &'static str>(ONE_OF_MULTIPLE_MATCHES)
                &&& a is Some && matched == 1 ==> r == Ok::<Self, &'static str>(OneOf4::A(a->0))
                &&& b is Some && matched == 1 ==> r == Ok::<Self, &'static str>(OneOf4::B(b->0))
                &&& c is Some && matched == 1 ==> r == Ok::<Self, &'static str>(OneOf4::C(c->0))
                &&& d is Some && matched == 1 ==> r == Ok::<Self, &'static str>(OneOf4::D(d->0))
            }),
    {
        let mut result: Option<Self> = None;
        match a {
            Some(v) => {
                result = Some(OneOf4::A(v));
            },
            None => {},
        }
        match b {
            Some(v) => {
                if result.is_some() {
                    return Err(ONE_OF_MULTIPLE_MATCHES);
                }
                result = Some(OneOf4::B(v));
            },
            None => {},
        }
        match c {
            Some(v) => {
                if result.is_some() {
                    return Err(ONE_OF_MULTIPLE_MATCHES);
                }
                result = Some(OneOf4::C(v));
            },
            None => {},
        }
        match d {
            Some(v) => {
                if result.is_some() {
                    return Err(ONE_OF_MULTIPLE_MATCHES);
                }
                result = Some(OneOf4::D(v));
            },
            None => {},
        }
        match result {
            Some(v) => Ok(v),
            None => Err(ONE_OF_NO_MATCH),
        }
    }
}

impl<A: FromStr, B: FromStr, C: FromStr, D: FromStr> FromStr for OneOf4<A, B, C, D> {
    type Err = &'static str;

    fn from_str(x: &str) -> Result<Self, &'static str> {
        OneOf4::from_matches(parse_as::<A>(x), parse_as::<B>(x), parse_as::<C>(x), parse_as::<D>(x))
    }
}

/// `AnyOf4` type: models an OpenAPI `anyOf` schema with 4 alternatives.
#[derive(Debug, PartialEq, Clone)]
pub enum AnyOf4<A, B, C, D> {
    /// The `A` alternative.
    A(A),
    /// The `B` alternative.
    B(B),
    /// The `C` alternative.
    C(C),
    /// The `D` alternative.
    D(D),
}

impl<A, B, C, D> AnyOf4<A, B, C, D> {
    /// Chooses among what each alternative made of the input: the first
    /// alternative, in declared order, that accepted it.
    pub fn from_matches(a: Option<A>, b: Option<B>, c: Option<C>, d: Option<D>) -> (r: Result<Self, &'static str>)
        ensures
            present(a) + present(b) + present(c) + present(d) == 0 ==> r == Err::<Self, &'static str>(ANY_OF_NO_MATCH),
            a is Some ==> r == Ok::<Self, &'static str>(AnyOf4::A(a->0)),
            a is None && b is Some ==> r == Ok::<Self, &'static str>(AnyOf4::B(b->0)),
            a is None && b is None && c is Some ==> r == Ok::<Self, &'static str>(AnyOf4::C(c->0)),
            a is None && b is None && c is None && d is Some ==> r == Ok::<Self, &'static str>(AnyOf4::D(d->0)),
    {
        if let Some(v) = a {
            return Ok(AnyOf4::A(v));
        }
        if let Some(v) = b {
            return Ok(AnyOf4::B(v));
        }
        if let Some(v) = c {
            return Ok(AnyOf4::C(v));
        }
        if let Some(v) = d {
            return Ok(AnyOf4::D(v));
        }
        Err(ANY_OF_NO_MATCH)
    }
}

impl<A: FromStr, B: FromStr, C: FromStr, D: FromStr> FromStr for AnyOf4<A, B, C, D> {
    type Err = &'static str;

    fn from_str(x: &str) -> Result<Self, &'static str> {
        AnyOf4::from_matches(parse_as::<A>(x), parse_as::<B>(x), parse_as::<C>(x), parse_as::<D>(x))
    }
}

/// `OneOf5` type: models an OpenAPI `oneOf` schema with 5 alternatives.
#[derive(Debug, PartialEq, Clone)]
pub enum OneOf5<A, B, C, D, E> {
    /// The `A` alternative.
    A(A),
    /// The `B` alternative.
    B(B),
    /// The `C` alternative.
    C(C),
    /// The `D` alternative.
    D(D),
    /// The `E` alternative.
    E(E),
}

impl<A, B, C, D, E> OneOf5<A, B, C, D, E> {
    /// Chooses among what each alternative made of the input, in order:
    /// succeeds only when exactly one alternative accepted it.
    pub fn from_matches(a: Option<A>, b: Option<B>, c: Option<C>, d: Option<D>, e: Option<E>) -> (r: Result<Self, &'static str>)
        ensures
            ({
                let matched = present(a) + present(b) + present(c) + present(d) + present(e);
                &&& matched == 0 ==> r == Err::<Self, &'static str>(ONE_OF_NO_MATCH)
                &&& matched > 1 ==> r == Err::<Self, &'static str>(ONE_OF_MULTIPLE_MATCHES)
                &&& a is Some && matched == 1 ==> r == Ok::<Self, &'static str>(OneOf5::A(a->0))
                &&& b is Some && matched == 1 ==> r == Ok::<Self, &'static str>(OneOf5::B(b->0))
                &&& c is Some && matched == 1 ==> r == Ok::<Self, &'static str>(OneOf5::C(c->0))
                &&& d is Some && matched == 1 ==> r == Ok::<Self, &'static str>(OneOf5::D(d->0))
                &&& e is Some && matched == 1 ==> r == Ok::<Self, &'static str>(OneOf5::E(e->0))
            }),
    {
        let mut result: Option<Self> = None;
        match a {
            Some(v) => {
                result = Some(OneOf5::A(v));
            },
            None => {},
        }
        match b {
            Some(v) => {
                if result.is_some() {
                    return Err(ONE_OF_MULTIPLE_MATCHES);
                }
                result = Some(OneOf5::B(v));
            },
            None => {},
        }
        match c {
            Some(v) => {
                if result.is_some() {
                    return Err(ONE_OF_MULTIPLE_MATCHES);
                }
                result = Some(OneOf5::C(v));
            },
            None => {},
        }
        match d {
            Some(v) => {
                if result.is_some() {
                    return Err(ONE_OF_MULTIPLE_MATCHES);
                }
                result = Some(OneOf5::D(v));
            },
            None => {},
        }
        match e {
            Some(v) => {
                if result.is_some() {
                    return Err(ONE_OF_MULTIPLE_MATCHES);
                }
                result = Some(OneOf5::E(v));
            },
            None => {},
        }
        match result {
            Some(v) => Ok(v),
            None => Err(ONE_OF_NO_MATCH),
        }
    }
}

impl<A: FromStr, B: FromStr, C: FromStr, D: FromStr, E: FromStr> FromStr for OneOf5<A, B, C, D, E> {
    type Err = &'static str;

    fn from_str(x: &str) -> Result<Self, &'static str> {
        OneOf5::from_matches(parse_as::<A>(x), parse_as::<B>(x), parse_as::<C>(x), parse_as::<D>(x), parse_as::<E>(x))
    }
}

/// `AnyOf5` type: models an OpenAPI `anyOf` schema with 5 alternatives.
#[derive(Debug, PartialEq, Clone)]
pub enum AnyOf5<A, B, C, D, E> {
    /// The `A` alternative.
    A(A),
    /// The `B` alternative.
    B(B),
    /// The `C` alternative.
    C(C),
    /// The `D` alternative.
    D(D),
    /// The `E` alternative.
    E(E),
}

impl<A, B, C, D, E> AnyOf5<A, B, C, D, E> {
    /// Chooses among what each alternative made of the input: the first
    /// alternative, in declared order, that accepted it.
    pub fn from_matches(a: Option<A>, b: Option<B>, c: Option<C>, d: Option<D>, e: Option<E>) -> (r: Result<Self, &'static str>)
        ensures
            present(a) + present(b) + present(c) + present(d) + present(e) == 0 ==> r == Err::<Self, &'static str>(ANY_OF_NO_MATCH),
            a is Some ==> r == Ok::<Self, &'static str>(AnyOf5::A(a->0)),
            a is None && b is Some ==> r == Ok::<Self, &'static str>(AnyOf5::B(b->0)),
            a is None && b is None && c is Some ==> r == Ok::<Self, &'static str>(AnyOf5::C(c->0)),
            a is None && b is None && c is None && d is Some ==> r == Ok::<Self, &'static str>(AnyOf5::D(d->0)),
            a is None && b is None && c is None && d is None && e is Some ==> r == Ok::<Self, &'static str>(AnyOf5::E(e->0)),
    {
        if let Some(v) = a {
            return Ok(AnyOf5::A(v));
        }
        if let Some(v) = b {
            return Ok(AnyOf5::B(v));
        }
        if let Some(v) = c {
            return Ok(AnyOf5::C(v));
        }
        if let Some(v) = d {
            return Ok(AnyOf5::D(v));
        }
        if let Some(v) = e {
            return Ok(AnyOf5::E(v));
        }
        Err(ANY_OF_NO_MATCH)
    }
}

impl<A: FromStr, B: FromStr, C: FromStr, D: FromStr, E: FromStr> FromStr for AnyOf5<A, B, C, D, E> {
    type Err = &'static str;

    fn from_str(x: &str) -> Result<Self, &'static str> {
        AnyOf5::from_matches(parse_as::<A>(x), parse_as::<B>(x), parse_as::<C>(x), parse_as::<D>(x), parse_as::<E>(x))
    }
}

/// `OneOf6` type: models an OpenAPI `oneOf` schema with 6 alternatives.
#[derive(Debug, PartialEq, Clone)]
pub enum OneOf6<A, B, C, D, E, F> {
    /// The `A` alternative.
    A(A),
    /// The `B` alternative.
    B(B),
    /// The `C` alternative.
    C(C),
    /// The `D` alternative.
    D(D),
    /// The `E` alternative.
    E(E),
    /// The `F` alternative.
    F(F),
}

impl<A, B, C, D, E, F> OneOf6<A, B, C, D, E, F> {
    /// Chooses among what each alternative made of the input, in order:
    /// succeeds only when exactly one alternative accepted it.
    pub fn from_matches(a: Option<A>, b: Option<B>, c: Option<C>, d: Option<D>, e: Option<E>, f: Option<F>) -> (r: Result<Self, &'static str>)
        ensures
            ({
                let matched = present(a) + present(b) + present(c) + present(d) + present(e) + present(f);
                &&& matched == 0 ==> r == Err::<Self, &'static str>(ONE_OF_NO_MATCH)
                &&& matched > 1 ==> r == Err::<Self, &'static str>(ONE_OF_MULTIPLE_MATCHES)
                &&& a is Some && matched == 1 ==> r == Ok::<Self, &'static str>(OneOf6::A(a->0))
                &&& b is Some && matched == 1 ==> r == Ok::<Self, &'static str>(OneOf6::B(b->0))
                &&& c is Some && matched == 1 ==> r == Ok::<Self, &'static str>(OneOf6::C(c->0))
                &&& d is Some && matched == 1 ==> r == Ok::<Self, &'static str>(OneOf6::D(d->0))
                &&& e is Some && matched == 1 ==> r == Ok::<Self, &'static str>(OneOf6::E(e->0))
                &&& f is Some && matched == 1 ==> r == Ok::<Self, &'static str>(OneOf6::F(f->0))
            }),
    {
        let mut result: Option<Self> = None;
        match a {
            Some(v) => {
                result = Some(OneOf6::A(v));
            },
            None => {},
        }
        match b {
            Some(v) => {
                if result.is_some() {
                    return Err(ONE_OF_MULTIPLE_MATCHES);
                }
                result = Some(OneOf6::B(v));
            },
            None => {},
        }
        match c {
            Some(v) => {
                if result.is_some() {
                    return Err(ONE_OF_MULTIPLE_MATCHES);
                }
                result = Some(OneOf6::C(v));
            },
            None => {},
        }
        match d {
            Some(v) => {
                if result.is_some() {
                    return Err(ONE_OF_MULTIPLE_MATCHES);
                }
                result = Some(OneOf6::D(v));
            },
            None => {},
        }
        match e {
            Some(v) => {
                if result.is_some() {
                    return Err(ONE_OF_MULTIPLE_MATCHES);
                }
                result = Some(OneOf6::E(v));
            },
            None => {},
        }
        match f {
            Some(v) => {
                if result.is_some() {
                    return Err(ONE_OF_MULTIPLE_MATCHES);
                }
                result = Some(OneOf6::F(v));
            },
            None => {},
        }
        match result {
            Some(v) => Ok(v),
            None => Err(ONE_OF_NO_MATCH),
        }
    }
}

impl<A: FromStr, B: FromStr, C: FromStr, D: FromStr, E: FromStr, F: FromStr> FromStr for OneOf6<A, B, C, D, E, F> {
    type Err = &'static str;

    fn from_str(x: &str) -> Result<Self, &'static str> {
        OneOf6::from_matches(parse_as::<A>(x), parse_as::<B>(x), parse_as::<C>(x), parse_as::<D>(x), parse_as::<E>(x), parse_as::<F>(x))
    }
}

/// `AnyOf6` type: models an OpenAPI `anyOf` schema with 6 alternatives.
#[derive(Debug, PartialEq, Clone)]
pub enum AnyOf6<A, B, C, D, E, F> {
    /// The `A` alternative.
    A(A),
    /// The `B` alternative.
    B(B),
    /// The `C` alternative.
    C(C),
    /// The `D` alternative.
    D(D),
    /// The `E` alternative.
    E(E),
    /// The `F` alternative.
    F(F),
}

impl<A, B, C, D, E, F> AnyOf6<A, B, C, D, E, F> {
    /// Chooses among what each alternative made of the input: the first
    /// alternative, in declared order, that accepted it.
    pub fn from_matches(a: Option<A>, b: Option<B>, c: Option<C>, d: Option<D>, e: Option<E>, f: Option<F>) -> (r: Result<Self, &'static str>)
        ensures
            present(a) + present(b) + present(c) + present(d) + present(e) + present(f) == 0 ==> r == Err::<Self, &'static str>(ANY_OF_NO_MATCH),
            a is Some ==> r == Ok::<Self, &'static str>(AnyOf6::A(a->0)),
            a is None && b is Some ==> r == Ok::<Self, &'static str>(AnyOf6::B(b->0)),
            a is None && b is None && c is Some ==> r == Ok::<Self, &'static str>(AnyOf6::C(c->0)),
            a is None && b is None && c is None && d is Some ==> r == Ok::<Self, &'static str>(AnyOf6::D(d->0)),
            a is None && b is None && c is None && d is None && e is Some ==> r == Ok::<Self, &'static str>(AnyOf6::E(e->0)),
            a is None && b is None && c is None && d is None && e is None && f is Some ==> r == Ok::<Self, &'static str>(AnyOf6::F(f->0)),
    {
        if let Some(v) = a {
            return Ok(AnyOf6::A(v));
        }
        if let Some(v) = b {
            return Ok(AnyOf6::B(v));
        }
        if let Some(v) = c {
            return Ok(AnyOf6::C(v));
        }
        if let Some(v) = d {
            return Ok(AnyOf6::D(v));
        }
        if let Some(v) = e {
            return Ok(AnyOf6::E(v));
        }
        if let Some(v) = f {
            return Ok(AnyOf6::F(v));
        }
        Err(ANY_OF_NO_MATCH)
    }
}

impl<A: FromStr, B: FromStr, C: FromStr, D: FromStr, E: FromStr, F: FromStr> FromStr for AnyOf6<A, B, C, D, E, F> {
    type Err = &'static str;

    fn from_str(x: &str) -> Result<Self, &'static str> {
        AnyOf6::from_matches(parse_as::<A>(x), parse_as::<B>(x), parse_as::<C>(x), parse_as::<D>(x), parse_as::<E>(x), parse_as::<F>(x))
    }
}

/// `OneOf7` type: models an OpenAPI `oneOf` schema with 7 alternatives.
#[derive(Debug, PartialEq, Clone)]
pub enum OneOf7<A, B, C, D, E, F, G> {
    /// The `A` alternative.
    A(A),
    /// The `B` alternative.
    B(B),
    /// The `C` alternative.
    C(C),
    /// The `D` alternative.
    D(D),
    /// The `E` alternative.
    E(E),
    /// The `F` alternative.
    F(F),
    /// The `G` alternative.
    G(G),
}

impl<A, B, C, D, E, F, G> OneOf7<A, B, C, D, E, F, G> {
    /// Chooses among what each alternative made of the input, in order:
    /// succeeds only when exactly one alternative accepted it.
    pub fn from_matches(a: Option<A>, b: Option<B>, c: Option<C>, d: Option<D>, e: Option<E>, f: Option<F>, g: Option<G>) -> (r: Result<Self, &'static str>)
        ensures
            ({
                let matched = present(a) + present(b) + present(c) + present(d) + present(e) + present(f) + present(g);
                &&& matched == 0 ==> r == Err::<Self, &'static str>(ONE_OF_NO_MATCH)
                &&& matched > 1 ==> r == Err::<Self, &'static str>(ONE_OF_MULTIPLE_MATCHES)
                &&& a is Some && matched == 1 ==> r == Ok::<Self, &'static str>(OneOf7::A(a->0))
                &&& b is Some && matched == 1 ==> r == Ok::<Self, &'static str>(OneOf7::B(b->0))
                &&& c is Some && matched == 1 ==> r == Ok::<Self, &'static str>(OneOf7::C(c->0))
                &&& d is Some && matched == 1 ==> r == Ok::<Self, &'static str>(OneOf7::D(d->0))
                &&& e is Some && matched == 1 ==> r == Ok::<Self, &'static str>(OneOf7::E(e->0))
                &&& f is Some && matched == 1 ==> r == Ok::<Self, &'static str>(OneOf7::F(f->0))
                &&& g is Some && matched == 1 ==> r == Ok::<Self, &'static str>(OneOf7::G(g->0))
            }),
    {
        let mut result: Option<Self> = None;
        match a {
            Some(v) => {
                result = Some(OneOf7::A(v));
            },
            None => {},
        }
        match b {
            Some(v) => {
                if result.is_some() {
                    return Err(ONE_OF_MULTIPLE_MATCHES);
                }
                result = Some(OneOf7::B(v));
            },
            None => {},
        }
        match c {
            Some(v) => {
                if result.is_some() {
                    return Err(ONE_OF_MULTIPLE_MATCHES);
                }
                result = Some(OneOf7::C(v));
            },
            None => {},
        }
        match d {
            Some(v) => {
                if result.is_some() {
                    return Err(ONE_OF_MULTIPLE_MATCHES);
                }
                result = Some(OneOf7::D(v));
            },
            None => {},
        }
        match e {
            Some(v) => {
                if result.is_some() {
                    return Err(ONE_OF_MULTIPLE_MATCHES);
                }
                result = Some(OneOf7::E(v));
            },
            None => {},
        }
        match f {
            Some(v) => {
                if result.is_some() {
                    return Err(ONE_OF_MULTIPLE_MATCHES);
                }
                result = Some(OneOf7::F(v));
            },
            None => {},
        }
        match g {
            Some(v) => {
                if result.is_some() {
                    return Err(ONE_OF_MULTIPLE_MATCHES);
                }
                result = Some(OneOf7::G(v));
            },
            None => {},
        }
        match result {
            Some(v) => Ok(v),
            None => Err(ONE_OF_NO_MATCH),
        }
    }
}

impl<A: FromStr, B: FromStr, C: FromStr, D: FromStr, E: FromStr, F: FromStr, G: FromStr> FromStr for OneOf7<A, B, C, D, E, F, G> {
    type Err = &'static str;

    fn from_str(x: &str) -> Result<Self, &'static str> {
        OneOf7::from_matches(parse_as::<A>(x), parse_as::<B>(x), parse_as::<C>(x), parse_as::<D>(x), parse_as::<E>(x), parse_as::<F>(x), parse_as::<G>(x))
    }
}

/// `AnyOf7` type: models an OpenAPI `anyOf` schema with 7 alternatives.
#[derive(Debug, PartialEq, Clone)]
pub enum AnyOf7<A, B, C, D, E, F, G> {
    /// The `A` alternative.
    A(A),
    /// The `B` alternative.
    B(B),
    /// The `C` alternative.
    C(C),
    /// The `D` alternative.
    D(D),
    /// The `E` alternative.
    E(E),
    /// The `F` alternative.
    F(F),
    /// The `G` alternative.
    G(G),
}

impl<A, B, C, D, E, F, G> AnyOf7<A, B, C, D, E, F, G> {
    /// Chooses among what each alternative made of the input: the first
    /// alternative, in declared order, that accepted it.
    pub fn from_matches(a: Option<A>, b: Option<B>, c: Option<C>, d: Option<D>, e: Option<E>, f: Option<F>, g: Option<G>) -> (r: Result<Self, &'static str>)
        ensures
            present(a) + present(b) + present(c) + present(d) + present(e) + present(f) + present(g) == 0 ==> r == Err::<Self, &'static str>(ANY_OF_NO_MATCH),
            a is Some ==> r == Ok::<Self, &'static str>(AnyOf7::A(a->0)),
            a is None && b is Some ==> r == Ok::<Self, &'static str>(AnyOf7::B(b->0)),
            a is None && b is None && c is Some ==> r == Ok::<Self, &'static str>(AnyOf7::C(c->0)),
            a is None && b is None && c is None && d is Some ==> r == Ok::<Self, &'static str>(AnyOf7::D(d->0)),
            a is None && b is None && c is None && d is None && e is Some ==> r == Ok::<Self, &'static str>(AnyOf7::E(e->0)),
            a is None && b is None && c is None && d is None && e is None && f is Some ==> r == Ok::<Self, &'static str>(AnyOf7::F(f->0)),
            a is None && b is None && c is None && d is None && e is None && f is None && g is Some ==> r == Ok::<Self, &'static str>(AnyOf7::G(g->0)),
    {
        if let Some(v) = a {
            return Ok(AnyOf7::A(v));
        }
        if let Some(v) = b {
            return Ok(AnyOf7::B(v));
        }
        if let Some(v) = c {
            return Ok(AnyOf7::C(v));
        }
        if let Some(v) = d {
            return Ok(AnyOf7::D(v));
        }
        if let Some(v) = e {
            return Ok(AnyOf7::E(v));
        }
        if let Some(v) = f {
            return Ok(AnyOf7::F(v));
        }
        if let Some(v) = g {
            return Ok(AnyOf7::G(v));
        }
        Err(ANY_OF_NO_MATCH)
    }
}

impl<A: FromStr, B: FromStr, C: FromStr, D: FromStr, E: FromStr, F: FromStr, G: FromStr> FromStr for AnyOf7<A, B, C, D, E, F, G> {
    type Err = &'static str;

    fn from_str(x: &str) -> Result<Self, &'static str> {
        AnyOf7::from_matches(parse_as::<A>(x), parse_as::<B>(x), parse_as::<C>(x), parse_as::<D>(x), parse_as::<E>(x), parse_as::<F>(x), parse_as::<G>(x))
    }
}

/// `OneOf8` type: models an OpenAPI `oneOf` schema with 8 alternatives.
#[derive(Debug, PartialEq, Clone)]
pub enum OneOf8<A, B, C, D, E, F, G, H> {
    /// The `A` alternative.
    A(A),
    /// The `B` alternative.
    B(B),
    /// The `C` alternative.
    C(C),
    /// The `D` alternative.
    D(D),
    /// The `E` alternative.
    E(E),
    /// The `F` alternative.
    F(F),
    /// The `G` alternative.
    G(G),
    /// The `H` alternative.
    H(H),
}

impl<A, B, C, D, E, F, G, H> OneOf8<A, B, C, D, E, F, G, H> {
    /// Chooses among what each alternative made of the input, in order:
    /// succeeds only when exactly one alternative accepted it.
    pub fn from_matches(a: Option<A>, b: Option<B>, c: Option<C>, d: Option<D>, e: Option<E>, f: Option<F>, g: Option<G>, h: Option<H>) -> (r: Result<Self, &'static str>)
        ensures
            ({
                let matched = present(a) + present(b) + present(c) + present(d) + present(e) + present(f) + present(g) + present(h);
                &&& matched == 0 ==> r == Err::<Self, &'static str>(ONE_OF_NO_MATCH)
                &&& matched > 1 ==> r == Err::<Self, &'static str>(ONE_OF_MULTIPLE_MATCHES)
                &&& a is Some && matched == 1 ==> r == Ok::<Self, &'static str>(OneOf8::A(a->0))
                &&& b is Some && matched == 1 ==> r == Ok::<Self, &'static str>(OneOf8::B(b->0))
                &&& c is Some && matched == 1 ==> r == Ok::<Self, &'static str>(OneOf8::C(c->0))
                &&& d is Some && matched == 1 ==> r == Ok::<Self, &'static str>(OneOf8::D(d->0))
                &&& e is Some && matched == 1 ==> r == Ok::<Self, &'static str>(OneOf8::E(e->0))
                &&& f is Some && matched == 1 ==> r == Ok::<Self, &'static str>(OneOf8::F(f->0))
                &&& g is Some && matched == 1 ==> r == Ok::<Self, &'static str>(OneOf8::G(g->0))
                &&& h is Some && matched == 1 ==> r == Ok::<Self, &'static str>(OneOf8::H(h->0))
            }),
    {
        let mut result: Option<Self> = None;
        match a {
            Some(v) => {
                result = Some(OneOf8::A(v));
            },
            None => {},
        }
        match b {
            Some(v) => {
                if result.is_some() {
                    return Err(ONE_OF_MULTIPLE_MATCHES);
                }
                result = Some(OneOf8::B(v));
            },
            None => {},
        }
        match c {
            Some(v) => {
                if result.is_some() {
                    return Err(ONE_OF_MULTIPLE_MATCHES);
                }
                result = Some(OneOf8::C(v));
            },
            None => {},
        }
        match d {
            Some(v) => {
                if result.is_some() {
                    return Err(ONE_OF_MULTIPLE_MATCHES);
                }
                result = Some(OneOf8::D(v));
            },
            None => {},
        }
        match e {
            Some(v) => {
                if result.is_some() {
                    return Err(ONE_OF_MULTIPLE_MATCHES);
                }
                result = Some(OneOf8::E(v));
            },
            None => {},
        }
        match f {
            Some(v) => {
                if result.is_some() {
                    return Err(ONE_OF_MULTIPLE_MATCHES);
                }
                result = Some(OneOf8::F(v));
            },
            None => {},
        }
        match g {
            Some(v) => {
                if result.is_some() {
                    return Err(ONE_OF_MULTIPLE_MATCHES);
                }
                result = Some(OneOf8::G(v));
            },
            None => {},
        }
        match h {
            Some(v) => {
                if result.is_some() {
                    return Err(ONE_OF_MULTIPLE_MATCHES);
                }
                result = Some(OneOf8::H(v));
            },
            None => {},
        }
        match result {
            Some(v) => Ok(v),
            None => Err(ONE_OF_NO_MATCH),
        }
    }
}

impl<A: FromStr, B: FromStr, C: FromStr, D: FromStr, E: FromStr, F: FromStr, G: FromStr, H: FromStr> FromStr for OneOf8<A, B, C, D, E, F, G, H> {
    type Err = &'static str;

    fn from_str(x: &str) -> Result<Self, &'static str> {
        OneOf8::from_matches(parse_as::<A>(x), parse_as::<B>(x), parse_as::<C>(x), parse_as::<D>(x), parse_as::<E>(x), parse_as::<F>(x), parse_as::<G>(x), parse_as::<H>(x))
    }
}

/// `AnyOf8` type: models an OpenAPI `anyOf` schema with 8 alternatives.
#[derive(Debug, PartialEq, Clone)]
pub enum AnyOf8<A, B, C, D, E, F, G, H> {
    /// The `A` alternative.
    A(A),
    /// The `B` alternative.
    B(B),
    /// The `C` alternative.
    C(C),
    /// The `D` alternative.
    D(D),
    /// The `E` alternative.
    E(E),
    /// The `F` alternative.
    F(F),
    /// The `G` alternative.
    G(G),
    /// The `H` alternative.
    H(H),
}

impl<A, B, C, D, E, F, G, H> AnyOf8<A, B, C, D, E, F, G, H> {
    /// Chooses among what each alternative made of the input: the first
    /// alternative, in declared order, that accepted it.
    pub fn from_matches(a: Option<A>, b: Option<B>, c: Option<C>, d: Option<D>, e: Option<E>, f: Option<F>, g: Option<G>, h: Option<H>) -> (r: Result<Self, &'static str>)
        ensures
            present(a) + present(b) + present(c) + present(d) + present(e) + present(f) + present(g) + present(h) == 0 ==> r == Err::<Self, &'static str>(ANY_OF_NO_MATCH),
            a is Some ==> r == Ok::<Self, &'static str>(AnyOf8::A(a->0)),
            a is None && b is Some ==> r == Ok::<Self, &'static str>(AnyOf8::B(b->0)),
            a is None && b is None && c is Some ==> r == Ok::<Self, &'static str>(AnyOf8::C(c->0)),
            a is None && b is None && c is None && d is Some ==> r == Ok::<Self, &'static str>(AnyOf8::D(d->0)),
            a is None && b is None && c is None && d is None && e is Some ==> r == Ok::<Self, &'static str>(AnyOf8::E(e->0)),
            a is None && b is None && c is None && d is None && e is None && f is Some ==> r == Ok::<Self, &'static str>(AnyOf8::F(f->0)),
            a is None && b is None && c is None && d is None && e is None && f is None && g is Some ==> r == Ok::<Self, &'static str>(AnyOf8::G(g->0)),
            a is None && b is None && c is None && d is None && e is None && f is None && g is None && h is Some ==> r == Ok::<Self, &'static str>(AnyOf8::H(h->0)),
    {
        if let Some(v) = a {
            return Ok(AnyOf8::A(v));
        }
        if let Some(v) = b {
            return Ok(AnyOf8::B(v));
        }
        if let Some(v) = c {
            return Ok(AnyOf8::C(v));
        }
        if let Some(v) = d {
            return Ok(AnyOf8::D(v));
        }
        if let Some(v) = e {
            return Ok(AnyOf8::E(v));
        }
        if let Some(v) = f {
            return Ok(AnyOf8::F(v));
        }
        if let Some(v) = g {
            return Ok(AnyOf8::G(v));
        }
        if let Some(v) = h {
            return Ok(AnyOf8::H(v));
        }
        Err(ANY_OF_NO_MATCH)
    }
}

impl<A: FromStr, B: FromStr, C: FromStr, D: FromStr, E: FromStr, F: FromStr, G: FromStr, H: FromStr> FromStr for AnyOf8<A, B, C, D, E, F, G, H> {
    type Err = &'static str;

    fn from_str(x: &str) -> Result<Self, &'static str> {
        AnyOf8::from_matches(parse_as::<A>(x), parse_as::<B>(x), parse_as::<C>(x), parse_as::<D>(x), parse_as::<E>(x), parse_as::<F>(x), parse_as::<G>(x), parse_as::<H>(x))
    }
}

/// `OneOf9` type: models an OpenAPI `oneOf` schema with 9 alternatives.
#[derive(Debug, PartialEq, Clone)]
pub enum OneOf9<A, B, C, D, E, F, G, H, I> {
    /// The `A` alternative.
    A(A),
    /// The `B` alternative.
    B(B),
    /// The `C` alternative.
    C(C),
    /// The `D` alternative.
    D(D),
    /// The `E` alternative.
    E(E),
    /// The `F` alternative.
    F(F),
    /// The `G` alternative.
    G(G),
    /// The `H` alternative.
    H(H),
    /// The `I` alternative.
    I(I),
}

impl<A, B, C, D, E, F, G, H, I> OneOf9<A, B, C, D, E, F, G, H, I> {
    /// Chooses among what each alternative made of the input, in order:
    /// succeeds only when exactly one alternative accepted it.
    pub fn from_matches(a: Option<A>, b: Option<B>, c: Option<C>, d: Option<D>, e: Option<E>, f: Option<F>, g: Option<G>, h: Option<H>, i: Option<I>) -> (r: Result<Self, &'static str>)
        ensures
            ({
                let matched = present(a) + present(b) + present(c) + present(d) + present(e) + present(f) + present(g) + present(h) + present(i);
                &&& matched == 0 ==> r == Err::<Self, &'static str>(ONE_OF_NO_MATCH)
                &&& matched > 1 ==> r == Err::<Self, &'static str>(ONE_OF_MULTIPLE_MATCHES)
                &&& a is Some && matched == 1 ==> r == Ok::<Self, &'static str>(OneOf9::A(a->0))
                &&& b is Some && matched == 1 ==> r == Ok::<Self, &'static str>(OneOf9::B(b->0))
                &&& c is Some && matched == 1 ==> r == Ok::<Self, &'static str>(OneOf9::C(c->0))
                &&& d is Some && matched == 1 ==> r == Ok::<Self, &'static str>(OneOf9::D(d->0))
                &&& e is Some && matched == 1 ==> r == Ok::<Self, &'static str>(OneOf9::E(e->0))
                &&& f is Some && matched == 1 ==> r == Ok::<Self, &'static str>(OneOf9::F(f->0))
                &&& g is Some && matched == 1 ==> r == Ok::<Self, &'static str>(OneOf9::G(g->0))
                &&& h is Some && matched == 1 ==> r == Ok::<Self, &'static str>(OneOf9::H(h->0))
                &&& i is Some && matched == 1 ==> r == Ok::<Self, &'static str>(OneOf9::I(i->0))
            }),
    {
        let mut result: Option<Self> = None;
        match a {
            Some(v) => {
                result = Some(OneOf9::A(v));
            },
            None => {},
        }
        match b {
            Some(v) => {
                if result.is_some() {
                    return Err(ONE_OF_MULTIPLE_MATCHES);
                }
                result = Some(OneOf9::B(v));
            },
            None => {},
        }
        match c {
            Some(v) => {
                if result.is_some() {
                    return Err(ONE_OF_MULTIPLE_MATCHES);
                }
                result = Some(OneOf9::C(v));
            },
            None => {},
        }
        match d {
            Some(v) => {
                if result.is_some() {
                    return Err(ONE_OF_MULTIPLE_MATCHES);
                }
                result = Some(OneOf9::D(v));
            },
            None => {},
        }
        match e {
            Some(v) => {
                if result.is_some() {
                    return Err(ONE_OF_MULTIPLE_MATCHES);
                }
                result = Some(OneOf9::E(v));
            },
            None => {},
        }
        match f {
            Some(v) => {
                if result.is_some() {
                    return Err(ONE_OF_MULTIPLE_MATCHES);
                }
                result = Some(OneOf9::F(v));
            },
            None => {},
        }
        match g {
            Some(v) => {
                if result.is_some() {
                    return Err(ONE_OF_MULTIPLE_MATCHES);
                }
                result = Some(OneOf9::G(v));
            },
            None => {},
        }
        match h {
            Some(v) => {
                if result.is_some() {
                    return Err(ONE_OF_MULTIPLE_MATCHES);
                }
                result = Some(OneOf9::H(v));
            },
            None => {},
        }
        match i {
            Some(v) => {
                if result.is_some() {
                    return Err(ONE_OF_MULTIPLE_MATCHES);
                }
                result = Some(OneOf9::I(v));
            },
            None => {},
        }
        match result {
            Some(v) => Ok(v),
            None => Err(ONE_OF_NO_MATCH),
        }
    }
}

impl<A: FromStr, B: FromStr, C: FromStr, D: FromStr, E: FromStr, F: FromStr, G: FromStr, H: FromStr, I: FromStr> FromStr for OneOf9<A, B, C, D, E, F, G, H, I> {
    type Err = &'static str;

    fn from_str(x: &str) -> Result<Self, &'static str> {
        OneOf9::from_matches(parse_as::<A>(x), parse_as::<B>(x), parse_as::<C>(x), parse_as::<D>(x), parse_as::<E>(x), parse_as::<F>(x), parse_as::<G>(x), parse_as::<H>(x), parse_as::<I>(x))
    }
}

/// `AnyOf9` type: models an OpenAPI `anyOf` schema with 9 alternatives.
#[derive(Debug, PartialEq, Clone)]
pub enum AnyOf9<A, B, C, D, E, F, G, H, I> {
    /// The `A` alternative.
    A(A),
    /// The `B` alternative.
    B(B),
    /// The `C` alternative.
    C(C),
    /// The `D` alternative.
    D(D),
    /// The `E` alternative.
    E(E),
    /// The `F` alternative.
    F(F),
    /// The `G` alternative.
    G(G),
    /// The `H` alternative.
    H(H),
    /// The `I` alternative.
    I(I),
}

impl<A, B, C, D, E, F, G, H, I> AnyOf9<A, B, C, D, E, F, G, H, I> {
    /// Chooses among what each alternative made of the input: the first
    /// alternative, in declared order, that accepted it.
    pub fn from_matches(a: Option<A>, b: Option<B>, c: Option<C>, d: Option<D>, e: Option<E>, f: Option<F>, g: Option<G>, h: Option<H>, i: Option<I>) -> (r: Result<Self, &'static str>)
        ensures
            present(a) + present(b) + present(c) + present(d) + present(e) + present(f) + present(g) + present(h) + present(i) == 0 ==> r == Err::<Self, &'static str>(ANY_OF_NO_MATCH),
            a is Some ==> r == Ok::<Self, &'static str>(AnyOf9::A(a->0)),
            a is None && b is Some ==> r == Ok::<Self, &'static str>(AnyOf9::B(b->0)),
            a is None && b is None && c is Some ==> r == Ok::<Self, &'static str>(AnyOf9::C(c->0)),
            a is None && b is None && c is None && d is Some ==> r == Ok::<Self, &'static str>(AnyOf9::D(d->0)),
            a is None && b is None && c is None && d is None && e is Some ==> r == Ok::<Self, &'static str>(AnyOf9::E(e->0)),
            a is None && b is None && c is None && d is None && e is None && f is Some ==> r == Ok::<Self, &'static str>(AnyOf9::F(f->0)),
            a is None && b is None && c is None && d is None && e is None && f is None && g is Some ==> r == Ok::<Self, &'static str>(AnyOf9::G(g->0)),
            a is None && b is None && c is None && d is None && e is None && f is None && g is None && h is Some ==> r == Ok::<Self, &'static str>(AnyOf9::H(h->0)),
            a is None && b is None && c is None && d is None && e is None && f is None && g is None && h is None && i is Some ==> r == Ok::<Self, &'static str>(AnyOf9::I(i->0)),
    {
        if let Some(v) = a {
            return Ok(AnyOf9::A(v));
        }
        if let Some(v) = b {
            return Ok(AnyOf9::B(v));
        }
        if let Some(v) = c {
            return Ok(AnyOf9::C(v));
        }
        if let Some(v) = d {
            return Ok(AnyOf9::D(v));
        }
        if let Some(v) = e {
            return Ok(AnyOf9::E(v));
        }
        if let Some(v) = f {
            return Ok(AnyOf9::F(v));
        }
        if let Some(v) = g {
            return Ok(AnyOf9::G(v));
        }
        if let Some(v) = h {
            return Ok(AnyOf9::H(v));
        }
        if let Some(v) = i {
            return Ok(AnyOf9::I(v));
        }
        Err(ANY_OF_NO_MATCH)
    }
}

impl<A: FromStr, B: FromStr, C: FromStr, D: FromStr, E: FromStr, F: FromStr, G: FromStr, H: FromStr, I: FromStr> FromStr for AnyOf9<A, B, C, D, E, F, G, H, I> {
    type Err = &'static str;

    fn from_str(x: &str) -> Result<Self, &'static str> {
        AnyOf9::from_matches(parse_as::<A>(x), parse_as::<B>(x), parse_as::<C>(x), parse_as::<D>(x), parse_as::<E>(x), parse_as::<F>(x), parse_as::<G>(x), parse_as::<H>(x), parse_as::<I>(x))
    }
}

/// `OneOf10` type: models an OpenAPI `oneOf` schema with 10 alternatives.
#[derive(Debug, PartialEq, Clone)]
pub enum OneOf10<A, B, C, D, E, F, G, H, I, J> {
    /// The `A` alternative.
    A(A),
    /// The `B` alternative.
    B(B),
    /// The `C` alternative.
    C(C),
    /// The `D` alternative.
    D(D),
    /// The `E` alternative.
    E(E),
    /// The `F` alternative.
    F(F),
    /// The `G` alternative.
    G(G),
    /// The `H` alternative.
    H(H),
    /// The `I` alternative.
    I(I),
    /// The `J` alternative.
    J(J),
}

impl<A, B, C, D, E, F, G, H, I, J> OneOf10<A, B, C, D, E, F, G, H, I, J> {
    /// Chooses among what each alternative made of the input, in order:
    /// succeeds only when exactly one alternative accepted it.
    pub fn from_matches(a: Option<A>, b: Option<B>, c: Option<C>, d: Option<D>, e: Option<E>, f: Option<F>, g: Option<G>, h: Option<H>, i: Option<I>, j: Option<J>) -> (r: Result<Self, &'static str>)
        ensures
            ({
                let matched = present(a) + present(b) + present(c) + present(d) + present(e) + present(f) + present(g) + present(h) + present(i) + present(j);
                &&& matched == 0 ==> r == Err::<Self, &'static str>(ONE_OF_NO_MATCH)
                &&& matched > 1 ==> r == Err::<Self, &'static str>(ONE_OF_MULTIPLE_MATCHES)
                &&& a is Some && matched == 1 ==> r == Ok::<Self, &'static str>(OneOf10::A(a->0))
                &&& b is Some && matched == 1 ==> r == Ok::<Self, &'static str>(OneOf10::B(b->0))
                &&& c is Some && matched == 1 ==> r == Ok::<Self, &'static str>(OneOf10::C(c->0))
                &&& d is Some && matched == 1 ==> r == Ok::<Self, &'static str>(OneOf10::D(d->0))
                &&& e is Some && matched == 1 ==> r == Ok::<Self, &'static str>(OneOf10::E(e->0))
                &&& f is Some && matched == 1 ==> r == Ok::<Self, &'static str>(OneOf10::F(f->0))
                &&& g is Some && matched == 1 ==> r == Ok::<Self, &'static str>(OneOf10::G(g->0))
                &&& h is Some && matched == 1 ==> r == Ok::<Self, &'static str>(OneOf10::H(h->0))
                &&& i is Some && matched == 1 ==> r == Ok::<Self, &'static str>(OneOf10::I(i->0))
                &&& j is Some && matched == 1 ==> r == Ok::<Self, &'static str>(OneOf10::J(j->0))
            }),
    {
        let mut result: Option<Self> = None;
        match a {
            Some(v) => {
                result = Some(OneOf10::A(v));
            },
            None => {},
        }
        match b {
            Some(v) => {
                if result.is_some() {
                    return Err(ONE_OF_MULTIPLE_MATCHES);
                }
                result = Some(OneOf10::B(v));
            },
            None => {},
        }
        match c {
            Some(v) => {
                if result.is_some() {
                    return Err(ONE_OF_MULTIPLE_MATCHES);
                }
                result = Some(OneOf10::C(v));
            },
            None => {},
        }
        match d {
            Some(v) => {
                if result.is_some() {
                    return Err(ONE_OF_MULTIPLE_MATCHES);
                }
                result = Some(OneOf10::D(v));
            },
            None => {},
        }
        match e {
            Some(v) => {
                if result.is_some() {
                    return Err(ONE_OF_MULTIPLE_MATCHES);
                }
                result = Some(OneOf10::E(v));
            },
            None => {},
        }
        match f {
            Some(v) => {
                if result.is_some() {
                    return Err(ONE_OF_MULTIPLE_MATCHES);
                }
                result = Some(OneOf10::F(v));
            },
            None => {},
        }
        match g {
            Some(v) => {
                if result.is_some() {
                    return Err(ONE_OF_MULTIPLE_MATCHES);
                }
                result = Some(OneOf10::G(v));
            },
            None => {},
        }
        match h {
            Some(v) => {
                if result.is_some() {
                    return Err(ONE_OF_MULTIPLE_MATCHES);
                }
                result = Some(OneOf10::H(v));
            },
            None => {},
        }
        match i {
            Some(v) => {
                if result.is_some() {
                    return Err(ONE_OF_MULTIPLE_MATCHES);
                }
                result = Some(OneOf10::I(v));
            },
            None => {},
        }
        match j {
            Some(v) => {
                if result.is_some() {
                    return Err(ONE_OF_MULTIPLE_MATCHES);
                }
                result = Some(OneOf10::J(v));
            },
            None => {},
        }
        match result {
            Some(v) => Ok(v),
            None => Err(ONE_OF_NO_MATCH),
        }
    }
}

impl<A: FromStr, B: FromStr, C: FromStr, D: FromStr, E: FromStr, F: FromStr, G: FromStr, H: FromStr, I: FromStr, J: FromStr> FromStr for OneOf10<A, B, C, D, E, F, G, H, I, J> {
    type Err = &'static str;

    fn from_str(x: &str) -> Result<Self, &'static str> {
        OneOf10::from_matches(parse_as::<A>(x), parse_as::<B>(x), parse_as::<C>(x), parse_as::<D>(x), parse_as::<E>(x), parse_as::<F>(x), parse_as::<G>(x), parse_as::<H>(x), parse_as::<I>(x), parse_as::<J>(x))
    }
}

/// `AnyOf10` type: models an OpenAPI `anyOf` schema with 10 alternatives.
#[derive(Debug, PartialEq, Clone)]
pub enum AnyOf10<A, B, C, D, E, F, G, H, I, J> {
    /// The `A` alternative.
    A(A),
    /// The `B` alternative.
    B(B),
    /// The `C` alternative.
    C(C),
    /// The `D` alternative.
    D(D),
    /// The `E` alternative.
    E(E),
    /// The `F` alternative.
    F(F),
    /// The `G` alternative.
    G(G),
    /// The `H` alternative.
    H(H),
    /// The `I` alternative.
    I(I),
    /// The `J` alternative.
    J(J),
}

impl<A, B, C, D, E, F, G, H, I, J> AnyOf10<A, B, C, D, E, F, G, H, I, J> {
    /// Chooses among what each alternative made of the input: the first
    /// alternative, in declared order, that accepted it.
    pub fn from_matches(a: Option<A>, b: Option<B>, c: Option<C>, d: Option<D>, e: Option<E>, f: Option<F>, g: Option<G>, h: Option<H>, i: Option<I>, j: Option<J>) -> (r: Result<Self, &'static str>)
        ensures
            present(a) + present(b) + present(c) + present(d) + present(e) + present(f) + present(g) + present(h) + present(i) + present(j) == 0 ==> r == Err::<Self, &'static str>(ANY_OF_NO_MATCH),
            a is Some ==> r == Ok::<Self, &'static str>(AnyOf10::A(a->0)),
            a is None && b is Some ==> r == Ok::<Self, &'static str>(AnyOf10::B(b->0)),
            a is None && b is None && c is Some ==> r == Ok::<Self, &'static str>(AnyOf10::C(c->0)),
            a is None && b is None && c is None && d is Some ==> r == Ok::<Self, &'static str>(AnyOf10::D(d->0)),
            a is None && b is None && c is None && d is None && e is Some ==> r == Ok::<Self, &'static str>(AnyOf10::E(e->0)),
            a is None && b is None && c is None && d is None && e is None && f is Some ==> r == Ok::<Self, &'static str>(AnyOf10::F(f->0)),
            a is None && b is None && c is None && d is None && e is None && f is None && g is Some ==> r == Ok::<Self, &'static str>(AnyOf10::G(g->0)),
            a is None && b is None && c is None && d is None && e is None && f is None && g is None && h is Some ==> r == Ok::<Self, &'static str>(AnyOf10::H(h->0)),
            a is None && b is None && c is None && d is None && e is None && f is None && g is None && h is None && i is Some ==> r == Ok::<Self, &'static str>(AnyOf10::I(i->0)),
            a is None && b is None && c is None && d is None && e is None && f is None && g is None && h is None && i is None && j is Some ==> r == Ok::<Self, &'static str>(AnyOf10::J(j->0)),
    {
        if let Some(v) = a {
            return Ok(AnyOf10::A(v));
        }
        if let Some(v) = b {
            return Ok(AnyOf10::B(v));
        }
        if let Some(v) = c {
            return Ok(AnyOf10::C(v));
        }
        if let Some(v) = d {
            return Ok(AnyOf10::D(v));
        }
        if let Some(v) = e {
            return Ok(AnyOf10::E(v));
        }
        if let Some(v) = f {
            return Ok(AnyOf10::F(v));
        }
        if let Some(v) = g {
            return Ok(AnyOf10::G(v));
        }
        if let Some(v) = h {
            return Ok(AnyOf10::H(v));
        }
        if let Some(v) = i {
            return Ok(AnyOf10::I(v));
        }
        if let Some(v) = j {
            return Ok(AnyOf10::J(v));
        }
        Err(ANY_OF_NO_MATCH)
    }
}

impl<A: FromStr, B: FromStr, C: FromStr, D: FromStr, E: FromStr, F: FromStr, G: FromStr, H: FromStr, I: FromStr, J: FromStr> FromStr for AnyOf10<A, B, C, D, E, F, G, H, I, J> {
    type Err = &'static str;

    fn from_str(x: &str) -> Result<Self, &'static str> {
        AnyOf10::from_matches(parse_as::<A>(x), parse_as::<B>(x), parse_as::<C>(x), parse_as::<D>(x), parse_as::<E>(x), parse_as::<F>(x), parse_as::<G>(x), parse_as::<H>(x), parse_as::<I>(x), parse_as::<J>(x))
    }
}

/// `OneOf11` type: models an OpenAPI `oneOf` schema with 11 alternatives.
#[derive(Debug, PartialEq, Clone)]
pub enum OneOf11<A, B, C, D, E, F, G, H, I, J, K> {
    /// The `A` alternative.
    A(A),
    /// The `B` alternative.
    B(B),
    /// The `C` alternative.
    C(C),
    /// The `D` alternative.
    D(D),
    /// The `E` alternative.
    E(E),
    /// The `F` alternative.
    F(F),
    /// The `G` alternative.
    G(G),
    /// The `H` alternative.
    H(H),
    /// The `I` alternative.
    I(I),
    /// The `J` alternative.
    J(J),
    /// The `K` alternative.
    K(K),
}

impl<A, B, C, D, E, F, G, H, I, J, K> OneOf11<A, B, C, D, E, F, G, H, I, J, K> {
    /// Chooses among what each alternative made of the input, in order:
    /// succeeds only when exactly one alternative accepted it.
    pub fn from_matches(a: Option<A>, b: Option<B>, c: Option<C>, d: Option<D>, e: Option<E>, f: Option<F>, g: Option<G>, h: Option<H>, i: Option<I>, j: Option<J>, k: Option<K>) -> (r: Result<Self, &'static str>)
        ensures
            ({
                let matched = present(a) + present(b) + present(c) + present(d) + present(e) + present(f) + present(g) + present(h) + present(i) + present(j) + present(k);
                &&& matched == 0 ==> r == Err::<Self, &'static str>(ONE_OF_NO_MATCH)
                &&& matched > 1 ==> r == Err::<Self, &'static str>(ONE_OF_MULTIPLE_MATCHES)
                &&& a is Some && matched == 1 ==> r == Ok::<Self, &'static str>(OneOf11::A(a->0))
                &&& b is Some && matched == 1 ==> r == Ok::<Self, &'static str>(OneOf11::B(b->0))
                &&& c is Some && matched == 1 ==> r == Ok::<Self, &'static str>(OneOf11::C(c->0))
                &&& d is Some && matched == 1 ==> r == Ok::<Self, &'static str>(OneOf11::D(d->0))
                &&& e is Some && matched == 1 ==> r == Ok::<Self, &'static str>(OneOf11::E(e->0))
                &&& f is Some && matched == 1 ==> r == Ok::<Self, &'static str>(OneOf11::F(f->0))
                &&& g is Some && matched == 1 ==> r == Ok::<Self, &'static str>(OneOf11::G(g->0))
                &&& h is Some && matched == 1 ==> r == Ok::<Self, &'static str>(OneOf11::H(h->0))
                &&& i is Some && matched == 1 ==> r == Ok::<Self, &'static str>(OneOf11::I(i->0))
                &&& j is Some && matched == 1 ==> r == Ok::<Self, &'static str>(OneOf11::J(j->0))
                &&& k is Some && matched == 1 ==> r == Ok::<Self, &'static str>(OneOf11::K(k->0))
            }),
    {
        let mut result: Option<Self> = None;
        match a {
            Some(v) => {
                result = Some(OneOf11::A(v));
            },
            None => {},
        }
        match b {
            Some(v) => {
                if result.is_some() {
                    return Err(ONE_OF_MULTIPLE_MATCHES);
                }
                result = Some(OneOf11::B(v));
            },
            None => {},
        }
        match c {
            Some(v) => {
                if result.is_some() {
                    return Err(ONE_OF_MULTIPLE_MATCHES);
                }
                result = Some(OneOf11::C(v));
            },
            None => {},
        }
        match d {
            Some(v) => {
                if result.is_some() {
                    return Err(ONE_OF_MULTIPLE_MATCHES);
                }
                result = Some(OneOf11::D(v));
            },
            None => {},
        }
        match e {
            Some(v) => {
                if result.is_some() {
                    return Err(ONE_OF_MULTIPLE_MATCHES);
                }
                result = Some(OneOf11::E(v));
            },
            None => {},
        }
        match f {
            Some(v) => {
                if result.is_some() {
                    return Err(ONE_OF_MULTIPLE_MATCHES);
                }
                result = Some(OneOf11::F(v));
            },
            None => {},
        }
        match g {
            Some(v) => {
                if result.is_some() {
                    return Err(ONE_OF_MULTIPLE_MATCHES);
                }
                result = Some(OneOf11::G(v));
            },
            None => {},
        }
        match h {
            Some(v) => {
                if result.is_some() {
                    return Err(ONE_OF_MULTIPLE_MATCHES);
                }
                result = Some(OneOf11::H(v));
            },
            None => {},
        }
        match i {
            Some(v) => {
                if result.is_some() {
                    return Err(ONE_OF_MULTIPLE_MATCHES);
                }
                result = Some(OneOf11::I(v));
            },
            None => {},
        }
        match j {
            Some(v) => {
                if result.is_some() {
                    return Err(ONE_OF_MULTIPLE_MATCHES);
                }
                result = Some(OneOf11::J(v));
            },
            None => {},
        }
        match k {
            Some(v) => {
                if result.is_some() {
                    return Err(ONE_OF_MULTIPLE_MATCHES);
                }
                result = Some(OneOf11::K(v));
            },
            None => {},
        }
        match result {
            Some(v) => Ok(v),
            None => Err(ONE_OF_NO_MATCH),
        }
    }
}

impl<A: FromStr, B: FromStr, C: FromStr, D: FromStr, E: FromStr, F: FromStr, G: FromStr, H: FromStr, I: FromStr, J: FromStr, K: FromStr> FromStr for OneOf11<A, B, C, D, E, F, G, H, I, J, K> {
    type Err = &'static str;

    fn from_str(x: &str) -> Result<Self, &'static str> {
        OneOf11::from_matches(parse_as::<A>(x), parse_as::<B>(x), parse_as::<C>(x), parse_as::<D>(x), parse_as::<E>(x), parse_as::<F>(x), parse_as::<G>(x), parse_as::<H>(x), parse_as::<I>(x), parse_as::<J>(x), parse_as::<K>(x))
    }
}

/// `AnyOf11` type: models an OpenAPI `anyOf` schema with 11 alternatives.
#[derive(Debug, PartialEq, Clone)]
pub enum AnyOf11<A, B, C, D, E, F, G, H, I, J, K> {
    /// The `A` alternative.
    A(A),
    /// The `B` alternative.
    B(B),
    /// The `C` alternative.
    C(C),
    /// The `D` alternative.
    D(D),
    /// The `E` alternative.
    E(E),
    /// The `F` alternative.
    F(F),
    /// The `G` alternative.
    G(G),
    /// The `H` alternative.
    H(H),
    /// The `I` alternative.
    I(I),
    /// The `J` alternative.
    J(J),
    /// The `K` alternative.
    K(K),
}

impl<A, B, C, D, E, F, G, H, I, J, K> AnyOf11<A, B, C, D, E, F, G, H, I, J, K> {
    /// Chooses among what each alternative made of the input: the first
    /// alternative, in declared order, that accepted it.
    pub fn from_matches(a: Option<A>, b: Option<B>, c: Option<C>, d: Option<D>, e: Option<E>, f: Option<F>, g: Option<G>, h: Option<H>, i: Option<I>, j: Option<J>, k: Option<K>) -> (r: Result<Self, &'static str>)
        ensures
            present(a) + present(b) + present(c) + present(d) + present(e) + present(f) + present(g) + present(h) + present(i) + present(j) + present(k) == 0 ==> r == Err::<Self, &'static str>(ANY_OF_NO_MATCH),
            a is Some ==> r == Ok::<Self, &'static str>(AnyOf11::A(a->0)),
            a is None && b is Some ==> r == Ok::<Self, &'static str>(AnyOf11::B(b->0)),
            a is None && b is None && c is Some ==> r == Ok::<Self, &'static str>(AnyOf11::C(c->0)),
            a is None && b is None && c is None && d is Some ==> r == Ok::<Self, &'static str>(AnyOf11::D(d->0)),
            a is None && b is None && c is None && d is None && e is Some ==> r == Ok::<Self, &'static str>(AnyOf11::E(e->0)),
            a is None && b is None && c is None && d is None && e is None && f is Some ==> r == Ok::<Self, &'static str>(AnyOf11::F(f->0)),
            a is None && b is None && c is None && d is None && e is None && f is None && g is Some ==> r == Ok::<Self, &'static str>(AnyOf11::G(g->0)),
            a is None && b is None && c is None && d is None && e is None && f is None && g is None && h is Some ==> r == Ok::<Self, &'static str>(AnyOf11::H(h->0)),
            a is None && b is None && c is None && d is None && e is None && f is None && g is None && h is None && i is Some ==> r == Ok::<Self, &'static str>(AnyOf11::I(i->0)),
            a is None && b is None && c is None && d is None && e is None && f is None && g is None && h is None && i is None && j is Some ==> r == Ok::<Self, &'static str>(AnyOf11::J(j->0)),
            a is None && b is None && c is None && d is None && e is None && f is None && g is None && h is None && i is None && j is None && k is Some ==> r == Ok::<Self, &'static str>(AnyOf11::K(k->0)),
    {
        if let Some(v) = a {
            return Ok(AnyOf11::A(v));
        }
        if let Some(v) = b {
            return Ok(AnyOf11::B(v));
        }
        if let Some(v) = c {
            return Ok(AnyOf11::C(v));
        }
        if let Some(v) = d {
            return Ok(AnyOf11::D(v));
        }
        if let Some(v) = e {
            return Ok(AnyOf11::E(v));
        }
        if let Some(v) = f {
            return Ok(AnyOf11::F(v));
        }
        if let Some(v) = g {
            return Ok(AnyOf11::G(v));
        }
        if let Some(v) = h {
            return Ok(AnyOf11::H(v));
        }
        if let Some(v) = i {
            return Ok(AnyOf11::I(v));
        }
        if let Some(v) = j {
            return Ok(AnyOf11::J(v));
        }
        if let Some(v) = k {
            return Ok(AnyOf11::K(v));
        }
        Err(ANY_OF_NO_MATCH)
    }
}

impl<A: FromStr, B: FromStr, C: FromStr, D: FromStr, E: FromStr, F: FromStr, G: FromStr, H: FromStr, I: FromStr, J: FromStr, K: FromStr> FromStr for AnyOf11<A, B, C, D, E, F, G, H, I, J, K> {
    type Err = &'static str;

    fn from_str(x: &str) -> Result<Self, &'static str> {
        AnyOf11::from_matches(parse_as::<A>(x), parse_as::<B>(x), parse_as::<C>(x), parse_as::<D>(x), parse_as::<E>(x), parse_as::<F>(x), parse_as::<G>(x), parse_as::<H>(x), parse_as::<I>(x), parse_as::<J>(x), parse_as::<K>(x))
    }
}

/// `OneOf12` type: models an OpenAPI `oneOf` schema with 12 alternatives.
#[derive(Debug, PartialEq, Clone)]
pub enum OneOf12<A, B, C, D, E, F, G, H, I, J, K, L> {
    /// The `A` alternative.
    A(A),
    /// The `B` alternative.
    B(B),
    /// The `C` alternative.
    C(C),
    /// The `D` alternative.
    D(D),
    /// The `E` alternative.
    E(E),
    /// The `F` alternative.
    F(F),
    /// The `G` alternative.
    G(G),
    /// The `H` alternative.
    H(H),
    /// The `I` alternative.
    I(I),
    /// The `J` alternative.
    J(J),
    /// The `K` alternative.
    K(K),
    /// The `L` alternative.
    L(L),
}

impl<A, B, C, D, E, F, G, H, I, J, K, L> OneOf12<A, B, C, D, E, F, G, H, I, J, K, L> {
    /// Chooses among what each alternative made of the input, in order:
    /// succeeds only when exactly one alternative accepted it.
    pub fn from_matches(a: Option<A>, b: Option<B>, c: Option<C>, d: Option<D>, e: Option<E>, f: Option<F>, g: Option<G>, h: Option<H>, i: Option<I>, j: Option<J>, k: Option<K>, l: Option<L>) -> (r: Result<Self, &'static str>)
        ensures
            ({
                let matched = present(a) + present(b) + present(c) + present(d) + present(e) + present(f) + present(g) + present(h) + present(i) + present(j) + present(k) + present(l);
                &&& matched == 0 ==> r == Err::<Self, &'static str>(ONE_OF_NO_MATCH)
                &&& matched > 1 ==> r == Err::<Self, &'static str>(ONE_OF_MULTIPLE_MATCHES)
                &&& a is Some && matched == 1 ==> r == Ok::<Self, &'static str>(OneOf12::A(a->0))
                &&& b is Some && matched == 1 ==> r == Ok::<Self, &'static str>(OneOf12::B(b->0))
                &&& c is Some && matched == 1 ==> r == Ok::<Self, &'static str>(OneOf12::C(c->0))
                &&& d is Some && matched == 1 ==> r == Ok::<Self, &'static str>(OneOf12::D(d->0))
                &&& e is Some && matched == 1 ==> r == Ok::<Self, &'static str>(OneOf12::E(e->0))
                &&& f is Some && matched == 1 ==> r == Ok::<Self, &'static str>(OneOf12::F(f->0))
                &&& g is Some && matched == 1 ==> r == Ok::<Self, &'static str>(OneOf12::G(g->0))
                &&& h is Some && matched == 1 ==> r == Ok::<Self, &'static str>(OneOf12::H(h->0))
                &&& i is Some && matched == 1 ==> r == Ok::<Self, &'static str>(OneOf12::I(i->0))
                &&& j is Some && matched == 1 ==> r == Ok::<Self, &'static str>(OneOf12::J(j->0))
                &&& k is Some && matched == 1 ==> r == Ok::<Self, &'static str>(OneOf12::K(k->0))
                &&& l is Some && matched == 1 ==> r == Ok::<Self, &'static str>(OneOf12::L(l->0))
            }),
    {
        let mut result: Option<Self> = None;
        match a {
            Some(v) => {
                result = Some(OneOf12::A(v));
            },
            None => {},
        }
        match b {
            Some(v) => {
                if result.is_some() {
                    return Err(ONE_OF_MULTIPLE_MATCHES);
                }
                result = Some(OneOf12::B(v));
            },
            None => {},
        }
        match c {
            Some(v) => {
                if result.is_some() {
                    return Err(ONE_OF_MULTIPLE_MATCHES);
                }
                result = Some(OneOf12::C(v));
            },
            None => {},
        }
        match d {
            Some(v) => {
                if result.is_some() {
                    return Err(ONE_OF_MULTIPLE_MATCHES);
                }
                result = Some(OneOf12::D(v));
            },
            None => {},
        }
        match e {
            Some(v) => {
                if result.is_some() {
                    return Err(ONE_OF_MULTIPLE_MATCHES);
                }
                result = Some(OneOf12::E(v));
            },
            None => {},
        }
        match f {
            Some(v) => {
                if result.is_some() {
                    return Err(ONE_OF_MULTIPLE_MATCHES);
                }
                result = Some(OneOf12::F(v));
            },
            None => {},
        }
        match g {
            Some(v) => {
                if result.is_some() {
                    return Err(ONE_OF_MULTIPLE_MATCHES);
                }
                result = Some(OneOf12::G(v));
            },
            None => {},
        }
        match h {
            Some(v) => {
                if result.is_some() {
                    return Err(ONE_OF_MULTIPLE_MATCHES);
                }
                result = Some(OneOf12::H(v));
            },
            None => {},
        }
        match i {
            Some(v) => {
                if result.is_some() {
                    return Err(ONE_OF_MULTIPLE_MATCHES);
                }
                result = Some(OneOf12::I(v));
            },
            None => {},
        }
        match j {
            Some(v) => {
                if result.is_some() {
                    return Err(ONE_OF_MULTIPLE_MATCHES);
                }
                result = Some(OneOf12::J(v));
            },
            None => {},
        }
        match k {
            Some(v) => {
                if result.is_some() {
                    return Err(ONE_OF_MULTIPLE_MATCHES);
                }
                result = Some(OneOf12::K(v));
            },
            None => {},
        }
        match l {
            Some(v) => {
                if result.is_some() {
                    return Err(ONE_OF_MULTIPLE_MATCHES);
                }
                result = Some(OneOf12::L(v));
            },
            None => {},
        }
        match result {
            Some(v) => Ok(v),
            None => Err(ONE_OF_NO_MATCH),
        }
    }
}

impl<A: FromStr, B: FromStr, C: FromStr, D: FromStr, E: FromStr, F: FromStr, G: FromStr, H: FromStr, I: FromStr, J: FromStr, K: FromStr, L: FromStr> FromStr for OneOf12<A, B, C, D, E, F, G, H, I, J, K, L> {
    type Err = &'static str;

    fn from_str(x: &str) -> Result<Self, &'static str> {
        OneOf12::from_matches(parse_as::<A>(x), parse_as::<B>(x), parse_as::<C>(x), parse_as::<D>(x), parse_as::<E>(x), parse_as::<F>(x), parse_as::<G>(x), parse_as::<H>(x), parse_as::<I>(x), parse_as::<J>(x), parse_as::<K>(x), parse_as::<L>(x))
    }
}

/// `AnyOf12` type: models an OpenAPI `anyOf` schema with 12 alternatives.
#[derive(Debug, PartialEq, Clone)]
pub enum AnyOf12<A, B, C, D, E, F, G, H, I, J, K, L> {
    /// The `A` alternative.
    A(A),
    /// The `B` alternative.
    B(B),
    /// The `C` alternative.
    C(C),
    /// The `D` alternative.
    D(D),
    /// The `E` alternative.
    E(E),
    /// The `F` alternative.
    F(F),
    /// The `G` alternative.
    G(G),
    /// The `H` alternative.
    H(H),
    /// The `I` alternative.
    I(I),
    /// The `J` alternative.
    J(J),
    /// The `K` alternative.
    K(K),
    /// The `L` alternative.
    L(L),
}

impl<A, B, C, D, E, F, G, H, I, J, K, L> AnyOf12<A, B, C, D, E, F, G, H, I, J, K, L> {
    /// Chooses among what each alternative made of the input: the first
    /// alternative, in declared order, that accepted it.
    pub fn from_matches(a: Option<A>, b: Option<B>, c: Option<C>, d: Option<D>, e: Option<E>, f: Option<F>, g: Option<G>, h: Option<H>, i: Option<I>, j: Option<J>, k: Option<K>, l: Option<L>) -> (r: Result<Self, &'static str>)
        ensures
            present(a) + present(b) + present(c) + present(d) + present(e) + present(f) + present(g) + present(h) + present(i) + present(j) + present(k) + present(l) == 0 ==> r == Err::<Self, &'static str>(ANY_OF_NO_MATCH),
            a is Some ==> r == Ok::<Self, &'static str>(AnyOf12::A(a->0)),
            a is None && b is Some ==> r == Ok::<Self, &'static str>(AnyOf12::B(b->0)),
            a is None && b is None && c is Some ==> r == Ok::<Self, &'static str>(AnyOf12::C(c->0)),
            a is None && b is None && c is None && d is Some ==> r == Ok::<Self, &'static str>(AnyOf12::D(d->0)),
            a is None && b is None && c is None && d is None && e is Some ==> r == Ok::<Self, &'static str>(AnyOf12::E(e->0)),
            a is None && b is None && c is None && d is None && e is None && f is Some ==> r == Ok::<Self, &'static str>(AnyOf12::F(f->0)),
            a is None && b is None && c is None && d is None && e is None && f is None && g is Some ==> r == Ok::<Self, &'static str>(AnyOf12::G(g->0)),
            a is None && b is None && c is None && d is None && e is None && f is None && g is None && h is Some ==> r == Ok::<Self, &'static str>(AnyOf12::H(h->0)),
            a is None && b is None && c is None && d is None && e is None && f is None && g is None && h is None && i is Some ==> r == Ok::<Self, &'static str>(AnyOf12::I(i->0)),
            a is None && b is None && c is None && d is None && e is None && f is None && g is None && h is None && i is None && j is Some ==> r == Ok::<Self, &'static str>(AnyOf12::J(j->0)),
            a is None && b is None && c is None && d is None && e is None && f is None && g is None && h is None && i is None && j is None && k is Some ==> r == Ok::<Self, &'static str>(AnyOf12::K(k->0)),
            a is None && b is None && c is None && d is None && e is None && f is None && g is None && h is None && i is None && j is None && k is None && l is Some ==> r == Ok::<Self, &'static str>(AnyOf12::L(l->0)),
    {
        if let Some(v) = a {
            return Ok(AnyOf12::A(v));
        }
        if let Some(v) = b {
            return Ok(AnyOf12::B(v));
        }
        if let Some(v) = c {
            return Ok(AnyOf12::C(v));
        }
        if let Some(v) = d {
            return Ok(AnyOf12::D(v));
        }
        if let Some(v) = e {
            return Ok(AnyOf12::E(v));
        }
        if let Some(v) = f {
            return Ok(AnyOf12::F(v));
        }
        if let Some(v) = g {
            return Ok(AnyOf12::G(v));
        }
        if let Some(v) = h {
            return Ok(AnyOf12::H(v));
        }
        if let Some(v) = i {
            return Ok(AnyOf12::I(v));
        }
        if let Some(v) = j {
            return Ok(AnyOf12::J(v));
        }
        if let Some(v) = k {
            return Ok(AnyOf12::K(v));
        }
        if let Some(v) = l {
            return Ok(AnyOf12::L(v));
        }
        Err(ANY_OF_NO_MATCH)
    }
}

impl<A: FromStr, B: FromStr, C: FromStr, D: FromStr, E: FromStr, F: FromStr, G: FromStr, H: FromStr, I: FromStr, J: FromStr, K: FromStr, L: FromStr> FromStr for AnyOf12<A, B, C, D, E, F, G, H, I, J, K, L> {
    type Err = &'static str;

    fn from_str(x: &str) -> Result<Self, &'static str> {
        AnyOf12::from_matches(parse_as::<A>(x), parse_as::<B>(x), parse_as::<C>(x), parse_as::<D>(x), parse_as::<E>(x), parse_as::<F>(x), parse_as::<G>(x), parse_as::<H>(x), parse_as::<I>(x), parse_as::<J>(x), parse_as::<K>(x), parse_as::<L>(x))
    }
}

/// `OneOf13` type: models an OpenAPI `oneOf` schema with 13 alternatives.
#[derive(Debug, PartialEq, Clone)]
pub enum OneOf13<A, B, C, D, E, F, G, H, I, J, K, L, M> {
    /// The `A` alternative.
    A(A),
    /// The `B` alternative.
    B(B),
    /// The `C` alternative.
    C(C),
    /// The `D` alternative.
    D(D),
    /// The `E` alternative.
    E(E),
    /// The `F` alternative.
    F(F),
    /// The `G` alternative.
    G(G),
    /// The `H` alternative.
    H(H),
    /// The `I` alternative.
    I(I),
    /// The `J` alternative.
    J(J),
    /// The `K` alternative.
    K(K),
    /// The `L` alternative.
    L(L),
    /// The `M` alternative.
    M(M),
}

impl<A, B, C, D, E, F, G, H, I, J, K, L, M> OneOf13<A, B, C, D, E, F, G, H, I, J, K, L, M> {
    /// Chooses among what each alternative made of the input, in order:
    /// succeeds only when exactly one alternative accepted it.
    pub fn from_matches(a: Option<A>, b: Option<B>, c: Option<C>, d: Option<D>, e: Option<E>, f: Option<F>, g: Option<G>, h: Option<H>, i: Option<I>, j: Option<J>, k: Option<K>, l: Option<L>, m: Option<M>) -> (r: Result<Self, &'static str>)
        ensures
            ({
                let matched = present(a) + present(b) + present(c) + present(d) + present(e) + present(f) + present(g) + present(h) + present(i) + present(j) + present(k) + present(l) + present(m);
                &&& matched == 0 ==> r == Err::<Self, &'static str>(ONE_OF_NO_MATCH)
                &&& matched > 1 ==> r == Err::<Self, &'static str>(ONE_OF_MULTIPLE_MATCHES)
                &&& a is Some && matched == 1 ==> r == Ok::<Self, &'static str>(OneOf13::A(a->0))
                &&& b is Some && matched == 1 ==> r == Ok::<Self, &'static str>(OneOf13::B(b->0))
                &&& c is Some && matched == 1 ==> r == Ok::<Self, &'static str>(OneOf13::C(c->0))
                &&& d is Some && matched == 1 ==> r == Ok::<Self, &'static str>(OneOf13::D(d->0))
                &&& e is Some && matched == 1 ==> r == Ok::<Self, &'static str>(OneOf13::E(e->0))
                &&& f is Some && matched == 1 ==> r == Ok::<Self, &'static str>(OneOf13::F(f->0))
                &&& g is Some && matched == 1 ==> r == Ok::<Self, &'static str>(OneOf13::G(g->0))
                &&& h is Some && matched == 1 ==> r == Ok::<Self, &'static str>(OneOf13::H(h->0))
                &&& i is Some && matched == 1 ==> r == Ok::<Self, &'static str>(OneOf13::I(i->0))
                &&& j is Some && matched == 1 ==> r == Ok::<Self, &'static str>(OneOf13::J(j->0))
                &&& k is Some && matched == 1 ==> r == Ok::<Self, &'static str>(OneOf13::K(k->0))
                &&& l is Some && matched == 1 ==> r == Ok::<Self, &'static str>(OneOf13::L(l->0))
                &&& m is Some && matched == 1 ==> r == Ok::<Self, &'static str>(OneOf13::M(m->0))
            }),
    {
        let mut result: Option<Self> = None;
        match a {
            Some(v) => {
                result = Some(OneOf13::A(v));
            },
            None => {},
        }
        match b {
            Some(v) => {
                if result.is_some() {
                    return Err(ONE_OF_MULTIPLE_MATCHES);
                }
                result = Some(OneOf13::B(v));
            },
            None => {},
        }
        match c {
            Some(v) => {
                if result.is_some() {
                    return Err(ONE_OF_MULTIPLE_MATCHES);
                }
                result = Some(OneOf13::C(v));
            },
            None => {},
        }
        match d {
            Some(v) => {
                if result.is_some() {
                    return Err(ONE_OF_MULTIPLE_MATCHES);
                }
                result = Some(OneOf13::D(v));
            },
            None => {},
        }
        match e {
            Some(v) => {
                if result.is_some() {
                    return Err(ONE_OF_MULTIPLE_MATCHES);
                }
                result = Some(OneOf13::E(v));
            },
            None => {},
        }
        match f {
            Some(v) => {
                if result.is_some() {
                    return Err(ONE_OF_MULTIPLE_MATCHES);
                }
                result = Some(OneOf13::F(v));
            },
            None => {},
        }
        match g {
            Some(v) => {
                if result.is_some() {
                    return Err(ONE_OF_MULTIPLE_MATCHES);
                }
                result = Some(OneOf13::G(v));
            },
            None => {},
        }
        match h {
            Some(v) => {
                if result.is_some() {
                    return Err(ONE_OF_MULTIPLE_MATCHES);
                }
                result = Some(OneOf13::H(v));
            },
            None => {},
        }
        match i {
            Some(v) => {
                if result.is_some() {
                    return Err(ONE_OF_MULTIPLE_MATCHES);
                }
                result = Some(OneOf13::I(v));
            },
            None => {},
        }
        match j {
            Some(v) => {
                if result.is_some() {
                    return Err(ONE_OF_MULTIPLE_MATCHES);
                }
                result = Some(OneOf13::J(v));
            },
            None => {},
        }
        match k {
            Some(v) => {
                if result.is_some() {
                    return Err(ONE_OF_MULTIPLE_MATCHES);
                }
                result = Some(OneOf13::K(v));
            },
            None => {},
        }
        match l {
            Some(v) => {
                if result.is_some() {
                    return Err(ONE_OF_MULTIPLE_MATCHES);
                }
                result = Some(OneOf13::L(v));
            },
            None => {},
        }
        match m {
            Some(v) => {
                if result.is_some() {
                    return Err(ONE_OF_MULTIPLE_MATCHES);
                }
                result = Some(OneOf13::M(v));
            },
            None => {},
        }
        match result {
            Some(v) => Ok(v),
            None => Err(ONE_OF_NO_MATCH),
        }
    }
}

impl<A: FromStr, B: FromStr, C: FromStr, D: FromStr, E: FromStr, F: FromStr, G: FromStr, H: FromStr, I: FromStr, J: FromStr, K: FromStr, L: FromStr, M: FromStr> FromStr for OneOf13<A, B, C, D, E, F, G, H, I, J, K, L, M> {
    type Err = &'static str;

    fn from_str(x: &str) -> Result<Self, &'static str> {
        OneOf13::from_matches(parse_as::<A>(x), parse_as::<B>(x), parse_as::<C>(x), parse_as::<D>(x), parse_as::<E>(x), parse_as::<F>(x), parse_as::<G>(x), parse_as::<H>(x), parse_as::<I>(x), parse_as::<J>(x), parse_as::<K>(x), parse_as::<L>(x), parse_as::<M>(x))
    }
}

/// `AnyOf13` type: models an OpenAPI `anyOf` schema with 13 alternatives.
#[derive(Debug, PartialEq, Clone)]
pub enum AnyOf13<A, B, C, D, E, F, G, H, I, J, K, L, M> {
    /// The `A` alternative.
    A(A),
    /// The `B` alternative.
    B(B),
    /// The `C` alternative.
    C(C),
    /// The `D` alternative.
    D(D),
    /// The `E` alternative.
    E(E),
    /// The `F` alternative.
    F(F),
    /// The `G` alternative.
    G(G),
    /// The `H` alternative.
    H(H),
    /// The `I` alternative.
    I(I),
    /// The `J` alternative.
    J(J),
    /// The `K` alternative.
    K(K),
    /// The `L` alternative.
    L(L),
    /// The `M` alternative.
    M(M),
}

impl<A, B, C, D, E, F, G, H, I, J, K, L, M> AnyOf13<A, B, C, D, E, F, G, H, I, J, K, L, M> {
    /// Chooses among what each alternative made of the input: the first
    /// alternative, in declared order, that accepted it.
    pub fn from_matches(a: Option<A>, b: Option<B>, c: Option<C>, d: Option<D>, e: Option<E>, f: Option<F>, g: Option<G>, h: Option<H>, i: Option<I>, j: Option<J>, k: Option<K>, l: Option<L>, m: Option<M>) -> (r: Result<Self, &'static str>)
        ensures
            present(a) + present(b) + present(c) + present(d) + present(e) + present(f) + present(g) + present(h) + present(i) + present(j) + present(k) + present(l) + present(m) == 0 ==> r == Err::<Self, &'static str>(ANY_OF_NO_MATCH),
            a is Some ==> r == Ok::<Self, &'static str>(AnyOf13::A(a->0)),
            a is None && b is Some ==> r == Ok::<Self, &'static str>(AnyOf13::B(b->0)),
            a is None && b is None && c is Some ==> r == Ok::<Self, &'static str>(AnyOf13::C(c->0)),
            a is None && b is None && c is None && d is Some ==> r == Ok::<Self, &'static str>(AnyOf13::D(d->0)),
            a is None && b is None && c is None && d is None && e is Some ==> r == Ok::<Self, &'static str>(AnyOf13::E(e->0)),
            a is None && b is None && c is None && d is None && e is None && f is Some ==> r == Ok::<Self, &'static str>(AnyOf13::F(f->0)),
            a is None && b is None && c is None && d is None && e is None && f is None && g is Some ==> r == Ok::<Self, &'static str>(AnyOf13::G(g->0)),
            a is None && b is None && c is None && d is None && e is None && f is None && g is None && h is Some ==> r == Ok::<Self, &'static str>(AnyOf13::H(h->0)),
            a is None && b is None && c is None && d is None && e is None && f is None && g is None && h is None && i is Some ==> r == Ok::<Self, &'static str>(AnyOf13::I(i->0)),
            a is None && b is None && c is None && d is None && e is None && f is None && g is None && h is None && i is None && j is Some ==> r == Ok::<Self, &'static str>(AnyOf13::J(j->0)),
            a is None && b is None && c is None && d is None && e is None && f is None && g is None && h is None && i is None && j is None && k is Some ==> r == Ok::<Self, &'static str>(AnyOf13::K(k->0)),
            a is None && b is None && c is None && d is None && e is None && f is None && g is None && h is None && i is None && j is None && k is None && l is Some ==> r == Ok::<Self, &'static str>(AnyOf13::L(l->0)),
            a is None && b is None && c is None && d is None && e is None && f is None && g is None && h is None && i is None && j is None && k is None && l is None && m is Some ==> r == Ok::<Self, &'static str>(AnyOf13::M(m->0)),
    {
        if let Some(v) = a {
            return Ok(AnyOf13::A(v));
        }
        if let Some(v) = b {
            return Ok(AnyOf13::B(v));
        }
        if let Some(v) = c {
            return Ok(AnyOf13::C(v));
        }
        if let Some(v) = d {
            return Ok(AnyOf13::D(v));
        }
        if let Some(v) = e {
            return Ok(AnyOf13::E(v));
        }
        if let Some(v) = f {
            return Ok(AnyOf13::F(v));
        }
        if let Some(v) = g {
            return Ok(AnyOf13::G(v));
        }
        if let Some(v) = h {
            return Ok(AnyOf13::H(v));
        }
        if let Some(v) = i {
            return Ok(AnyOf13::I(v));
        }
        if let Some(v) = j {
            return Ok(AnyOf13::J(v));
        }
        if let Some(v) = k {
            return Ok(AnyOf13::K(v));
        }
        if let Some(v) = l {
            return Ok(AnyOf13::L(v));
        }
        if let Some(v) = m {
            return Ok(AnyOf13::M(v));
        }
        Err(ANY_OF_NO_MATCH)
    }
}

impl<A: FromStr, B: FromStr, C: FromStr, D: FromStr, E: FromStr, F: FromStr, G: FromStr, H: FromStr, I: FromStr, J: FromStr, K: FromStr, L: FromStr, M: FromStr> FromStr for AnyOf13<A, B, C, D, E, F, G, H, I, J, K, L, M> {
    type Err = &'static str;

    fn from_str(x: &str) -> Result<Self, &'static str> {
        AnyOf13::from_matches(parse_as::<A>(x), parse_as::<B>(x), parse_as::<C>(x), parse_as::<D>(x), parse_as::<E>(x), parse_as::<F>(x), parse_as::<G>(x), parse_as::<H>(x), parse_as::<I>(x), parse_as::<J>(x), parse_as::<K>(x), parse_as::<L>(x), parse_as::<M>(x))
    }
}

/// `OneOf14` type: models an OpenAPI `oneOf` schema with 14 alternatives.
#[derive(Debug, PartialEq, Clone)]
pub enum OneOf14<A, B, C, D, E, F, G, H, I, J, K, L, M, N> {
    /// The `A` alternative.
    A(A),
    /// The `B` alternative.
    B(B),
    /// The `C` alternative.
    C(C),
    /// The `D` alternative.
    D(D),
    /// The `E` alternative.
    E(E),
    /// The `F` alternative.
    F(F),
    /// The `G` alternative.
    G(G),
    /// The `H` alternative.
    H(H),
    /// The `I` alternative.
    I(I),
    /// The `J` alternative.
    J(J),
    /// The `K` alternative.
    K(K),
    /// The `L` alternative.
    L(L),
    /// The `M` alternative.
    M(M),
    /// The `N` alternative.
    N(N),
}

impl<A, B, C, D, E, F, G, H, I, J, K, L, M, N> OneOf14<A, B, C, D, E, F, G, H, I, J, K, L, M, N> {
    /// Chooses among what each alternative made of the input, in order:
    /// succeeds only when exactly one alternative accepted it.
    pub fn from_matches(a: Option<A>, b: Option<B>, c: Option<C>, d: Option<D>, e: Option<E>, f: Option<F>, g: Option<G>, h: Option<H>, i: Option<I>, j: Option<J>, k: Option<K>, l: Option<L>, m: Option<M>, n: Option<N>) -> (r: Result<Self, &'static str>)
        ensures
            ({
                let matched = present(a) + present(b) + present(c) + present(d) + present(e) + present(f) + present(g) + present(h) + present(i) + present(j) + present(k) + present(l) + present(m) + present(n);
                &&& matched == 0 ==> r == Err::<Self, &'static str>(ONE_OF_NO_MATCH)
                &&& matched > 1 ==> r == Err::<Self, &'static str>(ONE_OF_MULTIPLE_MATCHES)
                &&& a is Some && matched == 1 ==> r == Ok::<Self, &'static str>(OneOf14::A(a->0))
                &&& b is Some && matched == 1 ==> r == Ok::<Self, &'static str>(OneOf14::B(b->0))
                &&& c is Some && matched == 1 ==> r == Ok::<Self, &'static str>(OneOf14::C(c->0))
                &&& d is Some && matched == 1 ==> r == Ok::<Self, &'static str>(OneOf14::D(d->0))
                &&& e is Some && matched == 1 ==> r == Ok::<Self, &'static str>(OneOf14::E(e->0))
                &&& f is Some && matched == 1 ==> r == Ok::<Self, &'static str>(OneOf14::F(f->0))
                &&& g is Some && matched == 1 ==> r == Ok::<Self, &'static str>(OneOf14::G(g->0))
                &&& h is Some && matched == 1 ==> r == Ok::<Self, &'static str>(OneOf14::H(h->0))
                &&& i is Some && matched == 1 ==> r == Ok::<Self, &'static str>(OneOf14::I(i->0))
                &&& j is Some && matched == 1 ==> r == Ok::<Self, &'static str>(OneOf14::J(j->0))
                &&& k is Some && matched == 1 ==> r == Ok::<Self, &'static str>(OneOf14::K(k->0))
                &&& l is Some && matched == 1 ==> r == Ok::<Self, &'static str>(OneOf14::L(l->0))
                &&& m is Some && matched == 1 ==> r == Ok::<Self, &'static str>(OneOf14::M(m->0))
                &&& n is Some && matched == 1 ==> r == Ok::<Self, &'static str>(OneOf14::N(n->0))
            }),
    {
        let mut result: Option<Self> = None;
        match a {
            Some(v) => {
                result = Some(OneOf14::A(v));
            },
            None => {},
        }
        match b {
            Some(v) => {
                if result.is_some() {
                    return Err(ONE_OF_MULTIPLE_MATCHES);
                }
                result = Some(OneOf14::B(v));
            },
            None => {},
        }
        match c {
            Some(v) => {
                if result.is_some() {
                    return Err(ONE_OF_MULTIPLE_MATCHES);
                }
                result = Some(OneOf14::C(v));
            },
            None => {},
        }
        match d {
            Some(v) => {
                if result.is_some() {
                    return Err(ONE_OF_MULTIPLE_MATCHES);
                }
                result = Some(OneOf14::D(v));
            },
            None => {},
        }
        match e {
            Some(v) => {
                if result.is_some() {
                    return Err(ONE_OF_MULTIPLE_MATCHES);
                }
                result = Some(OneOf14::E(v));
            },
            None => {},
        }
        match f {
            Some(v) => {
                if result.is_some() {
                    return Err(ONE_OF_MULTIPLE_MATCHES);
                }
                result = Some(OneOf14::F(v));
            },
            None => {},
        }
        match g {
            Some(v) => {
                if result.is_some() {
                    return Err(ONE_OF_MULTIPLE_MATCHES);
                }
                result = Some(OneOf14::G(v));
            },
            None => {},
        }
        match h {
            Some(v) => {
                if result.is_some() {
                    return Err(ONE_OF_MULTIPLE_MATCHES);
                }
                result = Some(OneOf14::H(v));
            },
            None => {},
        }
        match i {
            Some(v) => {
                if result.is_some() {
                    return Err(ONE_OF_MULTIPLE_MATCHES);
                }
                result = Some(OneOf14::I(v));
            },
            None => {},
        }
        match j {
            Some(v) => {
                if result.is_some() {
                    return Err(ONE_OF_MULTIPLE_MATCHES);
                }
                result = Some(OneOf14::J(v));
            },
            None => {},
        }
        match k {
            Some(v) => {
                if result.is_some() {
                    return Err(ONE_OF_MULTIPLE_MATCHES);
                }
                result = Some(OneOf14::K(v));
            },
            None => {},
        }
        match l {
            Some(v) => {
                if result.is_some() {
                    return Err(ONE_OF_MULTIPLE_MATCHES);
                }
                result = Some(OneOf14::L(v));
            },
            None => {},
        }
        match m {
            Some(v) => {
                if result.is_some() {
                    return Err(ONE_OF_MULTIPLE_MATCHES);
                }
                result = Some(OneOf14::M(v));
            },
            None => {},
        }
        match n {
            Some(v) => {
                if result.is_some() {
                    return Err(ONE_OF_MULTIPLE_MATCHES);
                }
                result = Some(OneOf14::N(v));
            },
            None => {},
        }
        match result {
            Some(v) => Ok(v),
            None => Err(ONE_OF_NO_MATCH),
        }
    }
}

impl<A: FromStr, B: FromStr, C: FromStr, D: FromStr, E: FromStr, F: FromStr, G: FromStr, H: FromStr, I: FromStr, J: FromStr, K: FromStr, L: FromStr, M: FromStr, N: FromStr> FromStr for OneOf14<A, B, C, D, E, F, G, H, I, J, K, L, M, N> {
    type Err = &'static str;

    fn from_str(x: &str) -> Result<Self, &'static str> {
        OneOf14::from_matches(parse_as::<A>(x), parse_as::<B>(x), parse_as::<C>(x), parse_as::<D>(x), parse_as::<E>(x), parse_as::<F>(x), parse_as::<G>(x), parse_as::<H>(x), parse_as::<I>(x), parse_as::<J>(x), parse_as::<K>(x), parse_as::<L>(x), parse_as::<M>(x), parse_as::<N>(x))
    }
}

/// `AnyOf14` type: models an OpenAPI `anyOf` schema with 14 alternatives.
#[derive(Debug, PartialEq, Clone)]
pub enum AnyOf14<A, B, C, D, E, F, G, H, I, J, K, L, M, N> {
    /// The `A` alternative.
    A(A),
    /// The `B` alternative.
    B(B),
    /// The `C` alternative.
    C(C),
    /// The `D` alternative.
    D(D),
    /// The `E` alternative.
    E(E),
    /// The `F` alternative.
    F(F),
    /// The `G` alternative.
    G(G),
    /// The `H` alternative.
    H(H),
    /// The `I` alternative.
    I(I),
    /// The `J` alternative.
    J(J),
    /// The `K` alternative.
    K(K),
    /// The `L` alternative.
    L(L),
    /// The `M` alternative.
    M(M),
    /// The `N` alternative.
    N(N),
}

impl<A, B, C, D, E, F, G, H, I, J, K, L, M, N> AnyOf14<A, B, C, D, E, F, G, H, I, J, K, L, M, N> {
    /// Chooses among what each alternative made of the input: the first
    /// alternative, in declared order, that accepted it.
    pub fn from_matches(a: Option<A>, b: Option<B>, c: Option<C>, d: Option<D>, e: Option<E>, f: Option<F>, g: Option<G>, h: Option<H>, i: Option<I>, j: Option<J>, k: Option<K>, l: Option<L>, m: Option<M>, n: Option<N>) -> (r: Result<Self, &'static str>)
        ensures
            present(a) + present(b) + present(c) + present(d) + present(e) + present(f) + present(g) + present(h) + present(i) + present(j) + present(k) + present(l) + present(m) + present(n) == 0 ==> r == Err::<Self, &'static str>(ANY_OF_NO_MATCH),
            a is Some ==> r == Ok::<Self, &'static str>(AnyOf14::A(a->0)),
            a is None && b is Some ==> r == Ok::<Self, &'static str>(AnyOf14::B(b->0)),
            a is None && b is None && c is Some ==> r == Ok::<Self, &'static str>(AnyOf14::C(c->0)),
            a is None && b is None && c is None && d is Some ==> r == Ok::<Self, &'static str>(AnyOf14::D(d->0)),
            a is None && b is None && c is None && d is None && e is Some ==> r == Ok::<Self, &'static str>(AnyOf14::E(e->0)),
            a is None && b is None && c is None && d is None && e is None && f is Some ==> r == Ok::<Self, &'static str>(AnyOf14::F(f->0)),
            a is None && b is None && c is None && d is None && e is None && f is None && g is Some ==> r == Ok::<Self, &'static str>(AnyOf14::G(g->0)),
            a is None && b is None && c is None && d is None && e is None && f is None && g is None && h is Some ==> r == Ok::<Self, &'static str>(AnyOf14::H(h->0)),
            a is None && b is None && c is None && d is None && e is None && f is None && g is None && h is None && i is Some ==> r == Ok::<Self, &'static str>(AnyOf14::I(i->0)),
            a is None && b is None && c is None && d is None && e is None && f is None && g is None && h is None && i is None && j is Some ==> r == Ok::<Self, &'static str>(AnyOf14::J(j->0)),
            a is None && b is None && c is None && d is None && e is None && f is None && g is None && h is None && i is None && j is None && k is Some ==> r == Ok::<Self, &'static str>(AnyOf14::K(k->0)),
            a is None && b is None && c is None && d is None && e is None && f is None && g is None && h is None && i is None && j is None && k is None && l is Some ==> r == Ok::<Self, &'static str>(AnyOf14::L(l->0)),
            a is None && b is None && c is None && d is None && e is None && f is None && g is None && h is None && i is None && j is None && k is None && l is None && m is Some ==> r == Ok::<Self, &'static str>(AnyOf14::M(m->0)),
            a is None && b is None && c is None && d is None && e is None && f is None && g is None && h is None && i is None && j is None && k is None && l is None && m is None && n is Some ==> r == Ok::<Self, &'static str>(AnyOf14::N(n->0)),
    {
        if let Some(v) = a {
            return Ok(AnyOf14::A(v));
        }
        if let Some(v) = b {
            return Ok(AnyOf14::B(v));
        }
        if let Some(v) = c {
            return Ok(AnyOf14::C(v));
        }
        if let Some(v) = d {
            return Ok(AnyOf14::D(v));
        }
        if let Some(v) = e {
            return Ok(AnyOf14::E(v));
        }
        if let Some(v) = f {
            return Ok(AnyOf14::F(v));
        }
        if let Some(v) = g {
            return Ok(AnyOf14::G(v));
        }
        if let Some(v) = h {
            return Ok(AnyOf14::H(v));
        }
        if let Some(v) = i {
            return Ok(AnyOf14::I(v));
        }
        if let Some(v) = j {
            return Ok(AnyOf14::J(v));
        }
        if let Some(v) = k {
            return Ok(AnyOf14::K(v));
        }
        if let Some(v) = l {
            return Ok(AnyOf14::L(v));
        }
        if let Some(v) = m {
            return Ok(AnyOf14::M(v));
        }
        if let Some(v) = n {
            return Ok(AnyOf14::N(v));
        }
        Err(ANY_OF_NO_MATCH)
    }
}

impl<A: FromStr, B: FromStr, C: FromStr, D: FromStr, E: FromStr, F: FromStr, G: FromStr, H: FromStr, I: FromStr, J: FromStr, K: FromStr, L: FromStr, M: FromStr, N: FromStr> FromStr for AnyOf14<A, B, C, D, E, F, G, H, I, J, K, L, M, N> {
    type Err = &'static str;

    fn from_str(x: &str) -> Result<Self, &'static str> {
        AnyOf14::from_matches(parse_as::<A>(x), parse_as::<B>(x), parse_as::<C>(x), parse_as::<D>(x), parse_as::<E>(x), parse_as::<F>(x), parse_as::<G>(x), parse_as::<H>(x), parse_as::<I>(x), parse_as::<J>(x), parse_as::<K>(x), parse_as::<L>(x), parse_as::<M>(x), parse_as::<N>(x))
    }
}

/// `OneOf15` type: models an OpenAPI `oneOf` schema with 15 alternatives.
#[derive(Debug, PartialEq, Clone)]
pub enum OneOf15<A, B, C, D, E, F, G, H, I, J, K, L, M, N, O> {
    /// The `A` alternative.
    A(A),
    /// The `B` alternative.
    B(B),
    /// The `C` alternative.
    C(C),
    /// The `D` alternative.
    D(D),
    /// The `E` alternative.
    E(E),
    /// The `F` alternative.
    F(F),
    /// The `G` alternative.
    G(G),
    /// The `H` alternative.
    H(H),
    /// The `I` alternative.
    I(I),
    /// The `J` alternative.
    J(J),
    /// The `K` alternative.
    K(K),
    /// The `L` alternative.
    L(L),
    /// The `M` alternative.
    M(M),
    /// The `N` alternative.
    N(N),
    /// The `O` alternative.
    O(O),
}

impl<A, B, C, D, E, F, G, H, I, J, K, L, M, N, O> OneOf15<A, B, C, D, E, F, G, H, I, J, K, L, M, N, O> {
    /// Chooses among what each alternative made of the input, in order:
    /// succeeds only when exactly one alternative accepted it.
    pub fn from_matches(a: Option<A>, b: Option<B>, c: Option<C>, d: Option<D>, e: Option<E>, f: Option<F>, g: Option<G>, h: Option<H>, i: Option<I>, j: Option<J>, k: Option<K>, l: Option<L>, m: Option<M>, n: Option<N>, o: Option<O>) -> (r: Result<Self, &'static str>)
        ensures
            ({
                let matched = present(a) + present(b) + present(c) + present(d) + present(e) + present(f) + present(g) + present(h) + present(i) + present(j) + present(k) + present(l) + present(m) + present(n) + present(o);
                &&& matched == 0 ==> r == Err::<Self, &'static str>(ONE_OF_NO_MATCH)
                &&& matched > 1 ==> r == Err::<Self, &'static str>(ONE_OF_MULTIPLE_MATCHES)
                &&& a is Some && matched == 1 ==> r == Ok::<Self, &'static str>(OneOf15::A(a->0))
                &&& b is Some && matched == 1 ==> r == Ok::<Self, &'static str>(OneOf15::B(b->0))
                &&& c is Some && matched == 1 ==> r == Ok::<Self, &'static str>(OneOf15::C(c->0))
                &&& d is Some && matched == 1 ==> r == Ok::<Self, &'static str>(OneOf15::D(d->0))
                &&& e is Some && matched == 1 ==> r == Ok::<Self, &'static str>(OneOf15::E(e->0))
                &&& f is Some && matched == 1 ==> r == Ok::<Self, &'static str>(OneOf15::F(f->0))
                &&& g is Some && matched == 1 ==> r == Ok::<Self, &'static str>(OneOf15::G(g->0))
                &&& h is Some && matched == 1 ==> r == Ok::<Self, &'static str>(OneOf15::H(h->0))
                &&& i is Some && matched == 1 ==> r == Ok::<Self, &'static str>(OneOf15::I(i->0))
                &&& j is Some && matched == 1 ==> r == Ok::<Self, &'static str>(OneOf15::J(j->0))
                &&& k is Some && matched == 1 ==> r == Ok::<Self, &'static str>(OneOf15::K(k->0))
                &&& l is Some && matched == 1 ==> r == Ok::<Self, &'static str>(OneOf15::L(l->0))
                &&& m is Some && matched == 1 ==> r == Ok::<Self, &'static str>(OneOf15::M(m->0))
                &&& n is Some && matched == 1 ==> r == Ok::<Self, &'static str>(OneOf15::N(n->0))
                &&& o is Some && matched == 1 ==> r == Ok::<Self, &'static str>(OneOf15::O(o->0))
            }),
    {
        let mut result: Option<Self> = None;
        match a {
            Some(v) => {
                result = Some(OneOf15::A(v));
            },
            None => {},
        }
        match b {
            Some(v) => {
                if result.is_some() {
                    return Err(ONE_OF_MULTIPLE_MATCHES);
                }
                result = Some(OneOf15::B(v));
            },
            None => {},
        }
        match c {
            Some(v) => {
                if result.is_some() {
                    return Err(ONE_OF_MULTIPLE_MATCHES);
                }
                result = Some(OneOf15::C(v));
            },
            None => {},
        }
        match d {
            Some(v) => {
                if result.is_some() {
                    return Err(ONE_OF_MULTIPLE_MATCHES);
                }
                result = Some(OneOf15::D(v));
            },
            None => {},
        }
        match e {
            Some(v) => {
                if result.is_some() {
                    return Err(ONE_OF_MULTIPLE_MATCHES);
                }
                result = Some(OneOf15::E(v));
            },
            None => {},
        }
        match f {
            Some(v) => {
                if result.is_some() {
                    return Err(ONE_OF_MULTIPLE_MATCHES);
                }
                result = Some(OneOf15::F(v));
            },
            None => {},
        }
        match g {
            Some(v) => {
                if result.is_some() {
                    return Err(ONE_OF_MULTIPLE_MATCHES);
                }
                result = Some(OneOf15::G(v));
            },
            None => {},
        }
        match h {
            Some(v) => {
                if result.is_some() {
                    return Err(ONE_OF_MULTIPLE_MATCHES);
                }
                result = Some(OneOf15::H(v));
            },
            None => {},
        }
        match i {
            Some(v) => {
                if result.is_some() {
                    return Err(ONE_OF_MULTIPLE_MATCHES);
                }
                result = Some(OneOf15::I(v));
            },
            None => {},
        }
        match j {
            Some(v) => {
                if result.is_some() {
                    return Err(ONE_OF_MULTIPLE_MATCHES);
                }
                result = Some(OneOf15::J(v));
            },
            None => {},
        }
        match k {
            Some(v) => {
                if result.is_some() {
                    return Err(ONE_OF_MULTIPLE_MATCHES);
                }
                result = Some(OneOf15::K(v));
            },
            None => {},
        }
        match l {
            Some(v) => {
                if result.is_some() {
                    return Err(ONE_OF_MULTIPLE_MATCHES);
                }
                result = Some(OneOf15::L(v));
            },
            None => {},
        }
        match m {
            Some(v) => {
                if result.is_some() {
                    return Err(ONE_OF_MULTIPLE_MATCHES);
                }
                result = Some(OneOf15::M(v));
            },
            None => {},
        }
        match n {
            Some(v) => {
                if result.is_some() {
                    return Err(ONE_OF_MULTIPLE_MATCHES);
                }
                result = Some(OneOf15::N(v));
            },
            None => {},
        }
        match o {
            Some(v) => {
                if result.is_some() {
                    return Err(ONE_OF_MULTIPLE_MATCHES);
                }
                result = Some(OneOf15::O(v));
            },
            None => {},
        }
        match result {
            Some(v) => Ok(v),
            None => Err(ONE_OF_NO_MATCH),
        }
    }
}

impl<A: FromStr, B: FromStr, C: FromStr, D: FromStr, E: FromStr, F: FromStr, G: FromStr, H: FromStr, I: FromStr, J: FromStr, K: FromStr, L: FromStr, M: FromStr, N: FromStr, O: FromStr> FromStr for OneOf15<A, B, C, D, E, F, G, H, I, J, K, L, M, N, O> {
    type Err = &'static str;

    fn from_str(x: &str) -> Result<Self, &'static str> {
        OneOf15::from_matches(parse_as::<A>(x), parse_as::<B>(x), parse_as::<C>(x), parse_as::<D>(x), parse_as::<E>(x), parse_as::<F>(x), parse_as::<G>(x), parse_as::<H>(x), parse_as::<I>(x), parse_as::<J>(x), parse_as::<K>(x), parse_as::<L>(x), parse_as::<M>(x), parse_as::<N>(x), parse_as::<O>(x))
    }
}

/// `AnyOf15` type: models an OpenAPI `anyOf` schema with 15 alternatives.
#[derive(Debug, PartialEq, Clone)]
pub enum AnyOf15<A, B, C, D, E, F, G, H, I, J, K, L, M, N, O> {
    /// The `A` alternative.
    A(A),
    /// The `B` alternative.
    B(B),
    /// The `C` alternative.
    C(C),
    /// The `D` alternative.
    D(D),
    /// The `E` alternative.
    E(E),
    /// The `F` alternative.
    F(F),
    /// The `G` alternative.
    G(G),
    /// The `H` alternative.
    H(H),
    /// The `I` alternative.
    I(I),
    /// The `J` alternative.
    J(J),
    /// The `K` alternative.
    K(K),
    /// The `L` alternative.
    L(L),
    /// The `M` alternative.
    M(M),
    /// The `N` alternative.
    N(N),
    /// The `O` alternative.
    O(O),
}

impl<A, B, C, D, E, F, G, H, I, J, K, L, M, N, O> AnyOf15<A, B, C, D, E, F, G, H, I, J, K, L, M, N, O> {
    /// Chooses among what each alternative made of the input: the first
    /// alternative, in declared order, that accepted it.
    pub fn from_matches(a: Option<A>, b: Option<B>, c: Option<C>, d: Option<D>, e: Option<E>, f: Option<F>, g: Option<G>, h: Option<H>, i: Option<I>, j: Option<J>, k: Option<K>, l: Option<L>, m: Option<M>, n: Option<N>, o: Option<O>) -> (r: Result<Self, &'static str>)
        ensures
            present(a) + present(b) + present(c) + present(d) + present(e) + present(f) + present(g) + present(h) + present(i) + present(j) + present(k) + present(l) + present(m) + present(n) + present(o) == 0 ==> r == Err::<Self, &'static str>(ANY_OF_NO_MATCH),
            a is Some ==> r == Ok::<Self, &'static str>(AnyOf15::A(a->0)),
            a is None && b is Some ==> r == Ok::<Self, &'static str>(AnyOf15::B(b->0)),
            a is None && b is None && c is Some ==> r == Ok::<Self, &'static str>(AnyOf15::C(c->0)),
            a is None && b is None && c is None && d is Some ==> r == Ok::<Self, &'static str>(AnyOf15::D(d->0)),
            a is None && b is None && c is None && d is None && e is Some ==> r == Ok::<Self, &'static str>(AnyOf15::E(e->0)),
            a is None && b is None && c is None && d is None && e is None && f is Some ==> r == Ok::<Self, &'static str>(AnyOf15::F(f->0)),
            a is None && b is None && c is None && d is None && e is None && f is None && g is Some ==> r == Ok::<Self, &'static str>(AnyOf15::G(g->0)),
            a is None && b is None && c is None && d is None && e is None && f is None && g is None && h is Some ==> r == Ok::<Self, &'static str>(AnyOf15::H(h->0)),
            a is None && b is None && c is None && d is None && e is None && f is None && g is None && h is None && i is Some ==> r == Ok::<Self, &'static str>(AnyOf15::I(i->0)),
            a is None && b is None && c is None && d is None && e is None && f is None && g is None && h is None && i is None && j is Some ==> r == Ok::<Self, &'static str>(AnyOf15::J(j->0)),
            a is None && b is None && c is None && d is None && e is None && f is None && g is None && h is None && i is None && j is None && k is Some ==> r == Ok::<Self, &'static str>(AnyOf15::K(k->0)),
            a is None && b is None && c is None && d is None && e is None && f is None && g is None && h is None && i is None && j is None && k is None && l is Some ==> r == Ok::<Self, &'static str>(AnyOf15::L(l->0)),
            a is None && b is None && c is None && d is None && e is None && f is None && g is None && h is None && i is None && j is None && k is None && l is None && m is Some ==> r == Ok::<Self, &'static str>(AnyOf15::M(m->0)),
            a is None && b is None && c is None && d is None && e is None && f is None && g is None && h is None && i is None && j is None && k is None && l is None && m is None && n is Some ==> r == Ok::<Self, &'static str>(AnyOf15::N(n->0)),
            a is None && b is None && c is None && d is None && e is None && f is None && g is None && h is None && i is None && j is None && k is None && l is None && m is None && n is None && o is Some ==> r == Ok::<Self, &'static str>(AnyOf15::O(o->0)),
    {
        if let Some(v) = a {
            return Ok(AnyOf15::A(v));
        }
        if let Some(v) = b {
            return Ok(AnyOf15::B(v));
        }
        if let Some(v) = c {
            return Ok(AnyOf15::C(v));
        }
        if let Some(v) = d {
            return Ok(AnyOf15::D(v));
        }
        if let Some(v) = e {
            return Ok(AnyOf15::E(v));
        }
        if let Some(v) = f {
            return Ok(AnyOf15::F(v));
        }
        if let Some(v) = g {
            return Ok(AnyOf15::G(v));
        }
        if let Some(v) = h {
            return Ok(AnyOf15::H(v));
        }
        if let Some(v) = i {
            return Ok(AnyOf15::I(v));
        }
        if let Some(v) = j {
            return Ok(AnyOf15::J(v));
        }
        if let Some(v) = k {
            return Ok(AnyOf15::K(v));
        }
        if let Some(v) = l {
            return Ok(AnyOf15::L(v));
        }
        if let Some(v) = m {
            return Ok(AnyOf15::M(v));
        }
        if let Some(v) = n {
            return Ok(AnyOf15::N(v));
        }
        if let Some(v) = o {
            return Ok(AnyOf15::O(v));
        }
        Err(ANY_OF_NO_MATCH)
    }
}

impl<A: FromStr, B: FromStr, C: FromStr, D: FromStr, E: FromStr, F: FromStr, G: FromStr, H: FromStr, I: FromStr, J: FromStr, K: FromStr, L: FromStr, M: FromStr, N: FromStr, O: FromStr> FromStr for AnyOf15<A, B, C, D, E, F, G, H, I, J, K, L, M, N, O> {
    type Err = &'static str;

    fn from_str(x: &str) -> Result<Self, &'static str> {
        AnyOf15::from_matches(parse_as::<A>(x), parse_as::<B>(x), parse_as::<C>(x), parse_as::<D>(x), parse_as::<E>(x), parse_as::<F>(x), parse_as::<G>(x), parse_as::<H>(x), parse_as::<I>(x), parse_as::<J>(x), parse_as::<K>(x), parse_as::<L>(x), parse_as::<M>(x), parse_as::<N>(x), parse_as::<O>(x))
    }
}

/// `OneOf16` type: models an OpenAPI `oneOf` schema with 16 alternatives.
#[derive(Debug, PartialEq, Clone)]
pub enum OneOf16<A, B, C, D, E, F, G, H, I, J, K, L, M, N, O, P> {
    /// The `A` alternative.
    A(A),
    /// The `B` alternative.
    B(B),
    /// The `C` alternative.
    C(C),
    /// The `D` alternative.
    D(D),
    /// The `E` alternative.
    E(E),
    /// The `F` alternative.
    F(F),
    /// The `G` alternative.
    G(G),
    /// The `H` alternative.
    H(H),
    /// The `I` alternative.
    I(I),
    /// The `J` alternative.
    J(J),
    /// The `K` alternative.
    K(K),
    /// The `L` alternative.
    L(L),
    /// The `M` alternative.
    M(M),
    /// The `N` alternative.
    N(N),
    /// The `O` alternative.
    O(O),
    /// The `P` alternative.
    P(P),
}

impl<A, B, C, D, E, F, G, H, I, J, K, L, M, N, O, P> OneOf16<A, B, C, D, E, F, G, H, I, J, K, L, M, N, O, P> {
    /// Chooses among what each alternative made of the input, in order:
    /// succeeds only when exactly one alternative accepted it.
    pub fn from_matches(a: Option<A>, b: Option<B>, c: Option<C>, d: Option<D>, e: Option<E>, f: Option<F>, g: Option<G>, h: Option<H>, i: Option<I>, j: Option<J>, k: Option<K>, l: Option<L>, m: Option<M>, n: Option<N>, o: Option<O>, p: Option<P>) -> (r: Result<Self, &'static str>)
        ensures
            ({
                let matched = present(a) + present(b) + present(c) + present(d) + present(e) + present(f) + present(g) + present(h) + present(i) + present(j) + present(k) + present(l) + present(m) + present(n) + present(o) + present(p);
                &&& matched == 0 ==> r == Err::<Self, &'static str>(ONE_OF_NO_MATCH)
                &&& matched > 1 ==> r == Err::<Self, &'static str>(ONE_OF_MULTIPLE_MATCHES)
                &&& a is Some && matched == 1 ==> r == Ok::<Self, &'static str>(OneOf16::A(a->0))
                &&& b is Some && matched == 1 ==> r == Ok::<Self, &'static str>(OneOf16::B(b->0))
                &&& c is Some && matched == 1 ==> r == Ok::<Self, &'static str>(OneOf16::C(c->0))
                &&& d is Some && matched == 1 ==> r == Ok::<Self, &'static str>(OneOf16::D(d->0))
                &&& e is Some && matched == 1 ==> r == Ok::<Self, &'static str>(OneOf16::E(e->0))
                &&& f is Some && matched == 1 ==> r == Ok::<Self, &'static str>(OneOf16::F(f->0))
                &&& g is Some && matched == 1 ==> r == Ok::<Self, &'static str>(OneOf16::G(g->0))
                &&& h is Some && matched == 1 ==> r == Ok::<Self, &'static str>(OneOf16::H(h->0))
                &&& i is Some && matched == 1 ==> r == Ok::<Self, &'static str>(OneOf16::I(i->0))
                &&& j is Some && matched == 1 ==> r == Ok::<Self, &'static str>(OneOf16::J(j->0))
                &&& k is Some && matched == 1 ==> r == Ok::<Self, &'static str>(OneOf16::K(k->0))
                &&& l is Some && matched == 1 ==> r == Ok::<Self, &'static str>(OneOf16::L(l->0))
                &&& m is Some && matched == 1 ==> r == Ok::<Self, &'static str>(OneOf16::M(m->0))
                &&& n is Some && matched == 1 ==> r == Ok::<Self, &'static str>(OneOf16::N(n->0))
                &&& o is Some && matched == 1 ==> r == Ok::<Self, &'static str>(OneOf16::O(o->0))
                &&& p is Some && matched == 1 ==> r == Ok::<Self, &'static str>(OneOf16::P(p->0))
            }),
    {
        let mut result: Option<Self> = None;
        match a {
            Some(v) => {
                result = Some(OneOf16::A(v));
            },
            None => {},
        }
        match b {
            Some(v) => {
                if result.is_some() {
                    return Err(ONE_OF_MULTIPLE_MATCHES);
                }
                result = Some(OneOf16::B(v));
            },
            None => {},
        }
        match c {
            Some(v) => {
                if result.is_some() {
                    return Err(ONE_OF_MULTIPLE_MATCHES);
                }
                result = Some(OneOf16::C(v));
            },
            None => {},
        }
        match d {
            Some(v) => {
                if result.is_some() {
                    return Err(ONE_OF_MULTIPLE_MATCHES);
                }
                result = Some(OneOf16::D(v));
            },
            None => {},
        }
        match e {
            Some(v) => {
                if result.is_some() {
                    return Err(ONE_OF_MULTIPLE_MATCHES);
                }
                result = Some(OneOf16::E(v));
            },
            None => {},
        }
        match f {
            Some(v) => {
                if result.is_some() {
                    return Err(ONE_OF_MULTIPLE_MATCHES);
                }
                result = Some(OneOf16::F(v));
            },
            None => {},
        }
        match g {
            Some(v) => {
                if result.is_some() {
                    return Err(ONE_OF_MULTIPLE_MATCHES);
                }
                result = Some(OneOf16::G(v));
            },
            None => {},
        }
        match h {
            Some(v) => {
                if result.is_some() {
                    return Err(ONE_OF_MULTIPLE_MATCHES);
                }
                result = Some(OneOf16::H(v));
            },
            None => {},
        }
        match i {
            Some(v) => {
                if result.is_some() {
                    return Err(ONE_OF_MULTIPLE_MATCHES);
                }
                result = Some(OneOf16::I(v));
            },
            None => {},
        }
        match j {
            Some(v) => {
                if result.is_some() {
                    return Err(ONE_OF_MULTIPLE_MATCHES);
                }
                result = Some(OneOf16::J(v));
            },
            None => {},
        }
        match k {
            Some(v) => {
                if result.is_some() {
                    return Err(ONE_OF_MULTIPLE_MATCHES);
                }
                result = Some(OneOf16::K(v));
            },
            None => {},
        }
        match l {
            Some(v) => {
                if result.is_some() {
                    return Err(ONE_OF_MULTIPLE_MATCHES);
                }
                result = Some(OneOf16::L(v));
            },
            None => {},
        }
        match m {
            Some(v) => {
                if result.is_some() {
                    return Err(ONE_OF_MULTIPLE_MATCHES);
                }
                result = Some(OneOf16::M(v));
            },
            None => {},
        }
        match n {
            Some(v) => {
                if result.is_some() {
                    return Err(ONE_OF_MULTIPLE_MATCHES);
                }
                result = Some(OneOf16::N(v));
            },
            None => {},
        }
        match o {
            Some(v) => {
                if result.is_some() {
                    return Err(ONE_OF_MULTIPLE_MATCHES);
                }
                result = Some(OneOf16::O(v));
            },
            None => {},
        }
        match p {
            Some(v) => {
                if result.is_some() {
                    return Err(ONE_OF_MULTIPLE_MATCHES);
                }
                result = Some(OneOf16::P(v));
            },
            None => {},
        }
        match result {
            Some(v) => Ok(v),
            None => Err(ONE_OF_NO_MATCH),
        }
    }
}

impl<A: FromStr, B: FromStr, C: FromStr, D: FromStr, E: FromStr, F: FromStr, G: FromStr, H: FromStr, I: FromStr, J: FromStr, K: FromStr, L: FromStr, M: FromStr, N: FromStr, O: FromStr, P: FromStr> FromStr for OneOf16<A, B, C, D, E, F, G, H, I, J, K, L, M, N, O, P> {
    type Err = &'static str;

    fn from_str(x: &str) -> Result<Self, &'static str> {
        OneOf16::from_matches(parse_as::<A>(x), parse_as::<B>(x), parse_as::<C>(x), parse_as::<D>(x), parse_as::<E>(x), parse_as::<F>(x), parse_as::<G>(x), parse_as::<H>(x), parse_as::<I>(x), parse_as::<J>(x), parse_as::<K>(x), parse_as::<L>(x), parse_as::<M>(x), parse_as::<N>(x), parse_as::<O>(x), parse_as::<P>(x))
    }
}

/// `AnyOf16` type: models an OpenAPI `anyOf` schema with 16 alternatives.
#[derive(Debug, PartialEq, Clone)]
pub enum AnyOf16<A, B, C, D, E, F, G, H, I, J, K, L, M, N, O, P> {
    /// The `A` alternative.
    A(A),
    /// The `B` alternative.
    B(B),
    /// The `C` alternative.
    C(C),
    /// The `D` alternative.
    D(D),
    /// The `E` alternative.
    E(E),
    /// The `F` alternative.
    F(F),
    /// The `G` alternative.
    G(G),
    /// The `H` alternative.
    H(H),
    /// The `I` alternative.
    I(I),
    /// The `J` alternative.
    J(J),
    /// The `K` alternative.
    K(K),
    /// The `L` alternative.
    L(L),
    /// The `M` alternative.
    M(M),
    /// The `N` alternative.
    N(N),
    /// The `O` alternative.
    O(O),
    /// The `P` alternative.
    P(P),
}

impl<A, B, C, D, E, F, G, H, I, J, K, L, M, N, O, P> AnyOf16<A, B, C, D, E, F, G, H, I, J, K, L, M, N, O, P> {
    /// Chooses among what each alternative made of the input: the first
    /// alternative, in declared order, that accepted it.
    pub fn from_matches(a: Option<A>, b: Option<B>, c: Option<C>, d: Option<D>, e: Option<E>, f: Option<F>, g: Option<G>, h: Option<H>, i: Option<I>, j: Option<J>, k: Option<K>, l: Option<L>, m: Option<M>, n: Option<N>, o: Option<O>, p: Option<P>) -> (r: Result<Self, &'static str>)
        ensures
            present(a) + present(b) + present(c) + present(d) + present(e) + present(f) + present(g) + present(h) + present(i) + present(j) + present(k) + present(l) + present(m) + present(n) + present(o) + present(p) == 0 ==> r == Err::<Self, &'static str>(ANY_OF_NO_MATCH),
            a is Some ==> r == Ok::<Self, &'static str>(AnyOf16::A(a->0)),
            a is None && b is Some ==> r == Ok::<Self, &'static str>(AnyOf16::B(b->0)),
            a is None && b is None && c is Some ==> r == Ok::<Self, &'static str>(AnyOf16::C(c->0)),
            a is None && b is None && c is None && d is Some ==> r == Ok::<Self, &'static str>(AnyOf16::D(d->0)),
            a is None && b is None && c is None && d is None && e is Some ==> r == Ok::<Self, &'static str>(AnyOf16::E(e->0)),
            a is None && b is None && c is None && d is None && e is None && f is Some ==> r == Ok::<Self, &'static str>(AnyOf16::F(f->0)),
            a is None && b is None && c is None && d is None && e is None && f is None && g is Some ==> r == Ok::<Self, &'static str>(AnyOf16::G(g->0)),
            a is None && b is None && c is None && d is None && e is None && f is None && g is None && h is Some ==> r == Ok::<Self, &'static str>(AnyOf16::H(h->0)),
            a is None && b is None && c is None && d is None && e is None && f is None && g is None && h is None && i is Some ==> r == Ok::<Self, &'static str>(AnyOf16::I(i->0)),
            a is None && b is None && c is None && d is None && e is None && f is None && g is None && h is None && i is None && j is Some ==> r == Ok::<Self, &'static str>(AnyOf16::J(j->0)),
            a is None && b is None && c is None && d is None && e is None && f is None && g is None && h is None && i is None && j is None && k is Some ==> r == Ok::<Self, &'static str>(AnyOf16::K(k->0)),
            a is None && b is None && c is None && d is None && e is None && f is None && g is None && h is None && i is None && j is None && k is None && l is Some ==> r == Ok::<Self, &'static str>(AnyOf16::L(l->0)),
            a is None && b is None && c is None && d is None && e is None && f is None && g is None && h is None && i is None && j is None && k is None && l is None && m is Some ==> r == Ok::<Self, &'static str>(AnyOf16::M(m->0)),
            a is None && b is None && c is None && d is None && e is None && f is None && g is None && h is None && i is None && j is None && k is None && l is None && m is None && n is Some ==> r == Ok::<Self, &'static str>(AnyOf16::N(n->0)),
            a is None && b is None && c is None && d is None && e is None && f is None && g is None && h is None && i is None && j is None && k is None && l is None && m is None && n is None && o is Some ==> r == Ok::<Self, &'static str>(AnyOf16::O(o->0)),
            a is None && b is None && c is None && d is None && e is None && f is None && g is None && h is None && i is None && j is None && k is None && l is None && m is None && n is None && o is None && p is Some ==> r == Ok::<Self, &'static str>(AnyOf16::P(p->0)),
    {
        if let Some(v) = a {
            return Ok(AnyOf16::A(v));
        }
        if let Some(v) = b {
            return Ok(AnyOf16::B(v));
        }
        if let Some(v) = c {
            return Ok(AnyOf16::C(v));
        }
        if let Some(v) = d {
            return Ok(AnyOf16::D(v));
        }
        if let Some(v) = e {
            return Ok(AnyOf16::E(v));
        }
        if let Some(v) = f {
            return Ok(AnyOf16::F(v));
        }
        if let Some(v) = g {
            return Ok(AnyOf16::G(v));
        }
        if let Some(v) = h {
            return Ok(AnyOf16::H(v));
        }
        if let Some(v) = i {
            return Ok(AnyOf16::I(v));
        }
        if let Some(v) = j {
            return Ok(AnyOf16::J(v));
        }
        if let Some(v) = k {
            return Ok(AnyOf16::K(v));
        }
        if let Some(v) = l {
            return Ok(AnyOf16::L(v));
        }
        if let Some(v) = m {
            return Ok(AnyOf16::M(v));
        }
        if let Some(v) = n {
            return Ok(AnyOf16::N(v));
        }
        if let Some(v) = o {
            return Ok(AnyOf16::O(v));
        }
        if let Some(v) = p {
            return Ok(AnyOf16::P(v));
        }
        Err(ANY_OF_NO_MATCH)
    }
}

impl<A: FromStr, B: FromStr, C: FromStr, D: FromStr, E: FromStr, F: FromStr, G: FromStr, H: FromStr, I: FromStr, J: FromStr, K: FromStr, L: FromStr, M: FromStr, N: FromStr, O: FromStr, P: FromStr> FromStr for AnyOf16<A, B, C, D, E, F, G, H, I, J, K, L, M, N, O, P> {
    type Err = &'static str;

    fn from_str(x: &str) -> Result<Self, &'static str> {
        AnyOf16::from_matches(parse_as::<A>(x), parse_as::<B>(x), parse_as::<C>(x), parse_as::<D>(x), parse_as::<E>(x), parse_as::<F>(x), parse_as::<G>(x), parse_as::<H>(x), parse_as::<I>(x), parse_as::<J>(x), parse_as::<K>(x), parse_as::<L>(x), parse_as::<M>(x), parse_as::<N>(x), parse_as::<O>(x), parse_as::<P>(x))
    }
}

} // verus!
