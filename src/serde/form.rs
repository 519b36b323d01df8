//! The `style=form`, `explode=false` encoding.
pub use super::de::{from_slice, from_str};
pub use super::ser::to_string;
