//! Authentication and authorization data.
use crate::context::Push;
use crate::header::header_text;
use crate::text::{all_visible_ascii, check_visible_ascii, lemma_visible_ascii_valid_utf8, str_from_utf8};
use core::marker::PhantomData;
use headers::authorization::Credentials;
use std::collections::BTreeSet;
use vstd::prelude::*;
use vstd::utf8::*;

verus! {

/// The scopes that an authorization grants.
#[derive(Clone, Debug, PartialEq)]
pub enum Scopes {
    /// Only these scopes.
    Only(BTreeSet<String>),
    /// Every scope.
    All,
}

/// The decision of an authenticator on a request.
#[derive(Clone, Debug, PartialEq)]
pub struct Authorization {
    /// Whom the request acts for.
    pub subject: String,
    /// What it may do.
    pub scopes: Scopes,
    /// Who vouched for the subject, if known.
    pub issuer: Option<String>,
}

/// The credentials that a request carries, not yet checked.
#[derive(Clone, Debug, PartialEq)]
pub enum AuthData {
    /// HTTP basic authentication: user name and password.
    Basic(String, String),
    /// A bearer token.
    Bearer(String),
    /// An API key.
    ApiKey(String),
}

/// A character that may stand in a header value: a tab, or any character
/// from the space upwards but DEL.
pub open spec fn is_header_char(c: char) -> bool {
    c == '\t' || (32 <= c as u32 && c as u32 != 127)
}

/// The token that a bearer credential holds, given the text after the
/// `Bearer ` scheme: that text without the whitespace it may start with.
pub uninterp spec fn bearer_token_text(token: Seq<char>) -> Seq<char>;

/// The user name and password of a basic credential, given the whole header
/// value: the base64 text after the scheme and its spaces decodes to UTF-8
/// text that holds a colon; the name is what comes before the first colon,
/// the password what comes after it.
pub uninterp spec fn basic_credentials_of(value: Seq<u8>) -> Option<(Seq<char>, Seq<char>)>;

/// Relies on `headers::authorization::Basic::decode`, with its `username`
/// and `password`, on the header value.
#[verifier::external_body]
fn basic_credentials(value: &[u8]) -> (r: Option<(String, String)>)
    requires
        all_visible_ascii(value@),
        has_scheme(value@, basic_scheme()),
    ensures
        r is None <==> basic_credentials_of(value@) is None,
        r matches Some(c) ==> basic_credentials_of(value@) == Some((c.0@, c.1@)),
        r matches Some(c) ==> !c.0@.contains(':'),
{
    let v = http::HeaderValue::from_bytes(value).ok()?;
    headers::authorization::Basic::decode(&v).map(
        |b| (b.username().to_owned(), b.password().to_owned()),
    )
}

/// Relies on `headers::authorization::Bearer::decode`, with its `token`, on
/// a header value that reads as text: it always succeeds there, and the
/// token is the text after `Bearer ` without leading whitespace.
#[verifier::external_body]
fn bearer_from_header(value: &[u8]) -> (r: Option<String>)
    requires
        all_visible_ascii(value@),
        has_scheme(value@, bearer_scheme()),
    ensures
        r is Some,
        r matches Some(t) ==> t@ == bearer_token_text(after_bearer(value@)),
{
    let v = http::HeaderValue::from_bytes(value).ok()?;
    headers::authorization::Bearer::decode(&v).map(|b| b.token().to_owned())
}

/// The text after the `Bearer ` scheme of a header value.
pub open spec fn after_bearer(value: Seq<u8>) -> Seq<char> {
    decode_utf8(value.subrange(7, value.len() as int))
}

/// ASCII lowercase of a byte.
pub open spec fn ascii_lower(b: u8) -> u8 {
    if 65 <= b && b <= 90 {
        (b + 32) as u8
    } else {
        b
    }
}

/// The value starts with the scheme (given in lowercase), in any case.
pub open spec fn has_scheme(value: Seq<u8>, scheme: Seq<u8>) -> bool {
    value.len() >= scheme.len() && forall|i: int| 0 <= i < scheme.len() ==> ascii_lower(value[i]) == scheme[i]
}

/// `basic ` in bytes.
pub open spec fn basic_scheme() -> Seq<u8> {
    seq![98u8, 97, 115, 105, 99, 32]
}

/// `bearer ` in bytes.
pub open spec fn bearer_scheme() -> Seq<u8> {
    seq![98u8, 101, 97, 114, 101, 114, 32]
}

/// The mathematical value of `AuthData`.
pub enum AuthDataModel {
    Basic(Seq<char>, Seq<char>),
    Bearer(Seq<char>),
    ApiKey(Seq<char>),
}

impl View for AuthData {
    type V = AuthDataModel;

    open spec fn view(&self) -> AuthDataModel {
        match self {
            AuthData::Basic(u, p) => AuthDataModel::Basic(u@, p@),
            AuthData::Bearer(t) => AuthDataModel::Bearer(t@),
            AuthData::ApiKey(k) => AuthDataModel::ApiKey(k@),
        }
    }
}

/// The credentials that an `Authorization` header value carries: basic or
/// bearer, by a scheme matched in any case, on a value that reads as text.
pub open spec fn credentials_of(value: Option<Seq<u8>>) -> Option<AuthDataModel> {
    match value {
        None => None,
        Some(v) => if !all_visible_ascii(v) {
            None
        } else if has_scheme(v, basic_scheme()) {
            match basic_credentials_of(v) {
                Some((u, p)) => Some(AuthDataModel::Basic(u, p)),
                None => None,
            }
        } else if has_scheme(v, bearer_scheme()) {
            Some(AuthDataModel::Bearer(bearer_token_text(after_bearer(v))))
        } else {
            None
        },
    }
}

/// Tests whether the value starts with the scheme in any case.
fn starts_with_scheme(value: &[u8], scheme: &[u8]) -> (r: bool)
    ensures
        r == has_scheme(value@, scheme@),
{
    if value.len() < scheme.len() {
        return false;
    }
    let mut i: usize = 0;
    while i < scheme.len()
        invariant
            value@.len() >= scheme@.len(),
            i <= scheme@.len(),
            forall|j: int| 0 <= j < i ==> ascii_lower(value@[j]) == scheme@[j],
        decreases scheme@.len() - i,
    {
        let b = value[i];
        let lower: u8 = if 65 <= b && b <= 90 {
            b + 32
        } else {
            b
        };
        if lower != scheme[i] {
            return false;
        }
        i = i + 1;
    }
    true
}

/// The credentials that the `Authorization` header value carries, if any:
/// `Basic` with a user name and password, or `Bearer` with a token. The
/// scheme is matched in any case.
pub fn from_headers(authorization: Option<&[u8]>) -> (r: Option<AuthData>)
    ensures
        r is None <==> credentials_of(opt_bytes(authorization)) is None,
        r matches Some(d) ==> credentials_of(opt_bytes(authorization)) == Some(d@),
{
    let v = match authorization {
        Some(v) => v,
        None => {
            return None;
        },
    };
    if !check_visible_ascii(v) {
        return None;
    }
    let basic: Vec<u8> = vec![98, 97, 115, 105, 99, 32];
    let bearer: Vec<u8> = vec![98, 101, 97, 114, 101, 114, 32];
    assert(basic@ == basic_scheme());
    assert(bearer@ == bearer_scheme());
    if starts_with_scheme(v, basic.as_slice()) {
        match basic_credentials(v) {
            Some((u, p)) => Some(AuthData::Basic(u, p)),
            None => None,
        }
    } else if starts_with_scheme(v, bearer.as_slice()) {
        match bearer_from_header(v) {
            Some(t) => Some(AuthData::Bearer(t)),
            None => None,
        }
    } else {
        None
    }
}

/// The bytes of a header value, if there is one.
pub open spec fn opt_bytes(value: Option<&[u8]>) -> Option<Seq<u8>> {
    match value {
        Some(v) => Some(v@),
        None => None,
    }
}

/// The API key that a header value carries: its text, where it reads as text.
pub fn api_key_from_header(value: Option<&[u8]>) -> (r: Option<String>)
    ensures
        r is None <==> header_text(value) is None,
        r matches Some(k) ==> header_text(value) == Some(k@),
{
    match value {
        Some(b) => {
            if check_visible_ascii(b) {
                proof {
                    lemma_visible_ascii_valid_utf8(b@);
                }
                match str_from_utf8(b) {
                    Some(s) => Some(s.to_owned()),
                    None => None,
                }
            } else {
                None
            }
        },
        None => None,
    }
}

/// Relies on `headers::Authorization::bearer` and its `token`: the header
/// `Bearer <token>` is built exactly when every character may stand in a
/// header value, and its token is the given one with leading whitespace
/// trimmed.
#[verifier::external_body]
fn bearer_credential(token: &str) -> (r: Option<String>)
    ensures
        r is Some <==> forall|i: int| 0 <= i < token@.len() ==> is_header_char(#[trigger] token@[i]),
        r matches Some(t) ==> t@ == bearer_token_text(token@),
        r matches Some(t) ==> (token@.len() == 0 || (33 <= token@[0] as u32 && token@[0] as u32
            <= 126)) ==> t@ == token@,
{
    headers::Authorization::bearer(token).ok().map(|h| h.token().to_owned())
}

impl AuthData {
    /// Basic credentials from a user name and a password.
    pub fn basic(username: &str, password: &str) -> (r: AuthData)
        ensures
            r matches AuthData::Basic(u, p) && u@ == username@ && p@ == password@,
    {
        AuthData::Basic(username.to_owned(), password.to_owned())
    }

    /// Bearer credentials for a token, if the token may stand in a header
    /// value.
    pub fn bearer(token: &str) -> (r: Option<AuthData>)
        ensures
            r is Some <==> forall|i: int|
                0 <= i < token@.len() ==> is_header_char(#[trigger] token@[i]),
            r matches Some(d) ==> (d matches AuthData::Bearer(t) && t@ == bearer_token_text(
                token@,
            )),
            r matches Some(d) ==> (token@.len() == 0 || (33 <= token@[0] as u32 && token@[0] as u32
                <= 126)) ==> (d matches AuthData::Bearer(t) && t@ == token@),
    {
        match bearer_credential(token) {
            Some(t) => Some(AuthData::Bearer(t)),
            None => None,
        }
    }

    /// Credentials from an API key.
    pub fn apikey(apikey: &str) -> (r: AuthData)
        ensures
            r matches AuthData::ApiKey(k) && k@ == apikey@,
    {
        AuthData::ApiKey(apikey.to_owned())
    }
}

/// A context to which an authorization decision can be added.
pub trait RcBound: Push<Option<Authorization>> + Send + 'static {

}

impl<T> RcBound for T where T: Push<Option<Authorization>> + Send + 'static {

}

/// The decision that grants every scope to a subject, vouched for by nobody.
pub open spec fn allow_all(subject: String) -> Authorization {
    Authorization { subject, scopes: Scopes::All, issuer: None }
}

/// Makes `AllowAllAuthenticator`s around the services that `inner` makes.
#[derive(Debug)]
pub struct MakeAllowAllAuthenticator<T, RC> {
    inner: T,
    subject: String,
    marker: PhantomData<RC>,
}

impl<T, RC> MakeAllowAllAuthenticator<T, RC> {
    /// Wraps `inner`; every request will be authorized for `subject`.
    pub fn new(inner: T, subject: &str) -> (r: Self)
        ensures
            r.inner() == inner,
            r.subject()@ == subject@,
    {
        MakeAllowAllAuthenticator { inner, subject: subject.to_owned(), marker: PhantomData }
    }

    /// The wrapped service factory.
    pub closed spec fn inner(&self) -> T {
        self.inner
    }

    /// The subject that requests are authorized for.
    pub closed spec fn subject(&self) -> String {
        self.subject
    }

    /// The authenticator around a service that the wrapped factory made.
    pub fn make<S>(&self, service: S) -> (r: AllowAllAuthenticator<S, RC>)
        ensures
            r.inner() == service,
            r.subject() == self.subject(),
    {
        AllowAllAuthenticator { inner: service, subject: self.subject.clone(), marker: PhantomData }
    }

    /// The subject that requests are authorized for, as text.
    pub fn subject_text(&self) -> (r: String)
        ensures
            r == self.subject(),
    {
        self.subject.clone()
    }

    /// Borrows the wrapped factory.
    pub fn get_inner(&self) -> (r: &T)
        ensures
            *r == self.inner(),
    {
        &self.inner
    }
}

/// A service that authorizes every request for one subject, with every
/// scope, and passes it on. For tests and demonstrations: it checks no
/// credentials.
#[derive(Debug)]
pub struct AllowAllAuthenticator<T, RC> {
    inner: T,
    subject: String,
    marker: PhantomData<RC>,
}

impl<T: Clone, RC> Clone for AllowAllAuthenticator<T, RC> {
    fn clone(&self) -> Self {
        AllowAllAuthenticator {
            inner: self.inner.clone(),
            subject: self.subject.clone(),
            marker: PhantomData,
        }
    }
}

impl<T, RC> AllowAllAuthenticator<T, RC> {
    /// Wraps `inner`; every request will be authorized for `subject`.
    pub fn new(inner: T, subject: &str) -> (r: Self)
        ensures
            r.inner() == inner,
            r.subject()@ == subject@,
    {
        AllowAllAuthenticator { inner, subject: subject.to_owned(), marker: PhantomData }
    }

    /// The wrapped service.
    pub closed spec fn inner(&self) -> T {
        self.inner
    }

    /// The subject that requests are authorized for.
    pub closed spec fn subject(&self) -> String {
        self.subject
    }

    /// Borrows the wrapped service.
    pub fn get_inner(&self) -> (r: &T)
        ensures
            *r == self.inner(),
    {
        &self.inner
    }
}

impl<T, RC: Push<Option<Authorization>>> AllowAllAuthenticator<T, RC> {
    /// The context that a request goes on with: the incoming one with the
    /// decision that grants the subject every scope added.
    pub fn authorize(&self, context: RC) -> (r: RC::Result)
        ensures
            r == context.pushed(Some(allow_all(self.subject()))),
    {
        let decision = Authorization {
            subject: self.subject.clone(),
            scopes: Scopes::All,
            issuer: None,
        };
        context.push(Some(decision))
    }
}

} // verus!
