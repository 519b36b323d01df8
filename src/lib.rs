//! Support library for servers and clients generated from OpenAPI documents:
//! request contexts, middleware building blocks, header helpers and the
//! parameter codecs that OpenAPI describes.
use vstd::prelude::*;

pub mod add_context;
pub mod auth;
pub mod base64_format;
pub mod composites;
pub mod connector;
pub mod context;
pub mod drop_context;
pub mod header;
pub mod nullable_format;
pub mod one_any_of;
pub mod serde;
mod text;

pub use add_context::{AddContextMakeService, AddContextService};
pub use auth::{AuthData, Authorization, Scopes};
pub use base64_format::ByteArray;
pub use composites::{CompositeMakeService, CompositeService};
pub use connector::{Builder, Connector, HttpsBuilder};
pub use context::{ContextBuilder, ContextWrapper, ContextWrapperExt, EmptyContext, Has, Pop, Push};
pub use drop_context::{DropContextMakeService, DropContextService};
pub use header::{IntoHeaderValue, XSpanIdString, X_SPAN_ID};
pub use nullable_format::Nullable;

verus! {

/// An error that holds only a description. It serves people diagnosing a
/// problem, not programs: applications act on the responses that an API
/// defines, not on how the transport failed.
#[derive(Clone, Debug)]
pub struct ApiError(pub String);

impl ApiError {
    /// The description.
    pub fn to_string(&self) -> (r: String)
        ensures
            r@ == self.0@,
    {
        self.0.clone()
    }
}

impl<'a> From<&'a str> for ApiError {
    fn from(e: &'a str) -> (r: ApiError) {
        ApiError(e.to_owned())
    }
}

impl<'a> vstd::std_specs::convert::FromSpecImpl<&'a str> for ApiError {
    open spec fn obeys_from_spec() -> bool {
        false
    }

    open spec fn from_spec(e: &'a str) -> ApiError {
        ApiError(choose|s: String| s@ == e@)
    }
}

impl From<String> for ApiError {
    fn from(e: String) -> (r: ApiError) {
        ApiError(e)
    }
}

impl vstd::std_specs::convert::FromSpecImpl<String> for ApiError {
    open spec fn obeys_from_spec() -> bool {
        true
    }

    open spec fn from_spec(e: String) -> ApiError {
        ApiError(e)
    }
}

} // verus!
