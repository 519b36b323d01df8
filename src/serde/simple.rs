//! The `style=simple`, `explode=false` encoding, which writes values as the
//! form style does.
pub use super::de::{from_slice, from_str};
pub use super::ser::to_string;
