//! Decoding of a dynamically typed configuration value tree into validated
//! data, with path-annotated errors.
//!
//! A [`Value`] is a closed set of scalar and container variants. A [`Path`]
//! is an immutable cursor over a `Value` tree that records the sequence of
//! table keys taken from the root, together with a human-readable description
//! of the node it points at. Every failed descent or extraction is reported
//! as an [`At`]-wrapped [`Error`] carrying the dotted path where it occurred.

pub mod decode;
pub mod text;
pub mod value;

pub use decode::At;
pub use decode::Error;
pub use decode::Path;
pub use decode::Property;
pub use value::Array;
pub use value::Table;
pub use value::Value;
