//! Codecs for OpenAPI parameters in the `style=form` and `style=simple`
//! encodings with `explode=false`: scalars, comma-joined lists, and
//! comma-joined `key,value` pairs for objects and maps.
//!
//! Nested structures are ambiguous in this encoding, so the data model is
//! flat: a scalar, an optional scalar, a list of scalars, or a list of
//! key/value pairs.
pub mod de;
pub mod form;
pub mod number;
pub mod percent;
pub mod ser;
pub mod simple;
pub mod value;

pub use value::{Kind, Scalar, ScalarModel, Shape, Value, ValueModel};
