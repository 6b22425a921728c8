//! YAML serialization: an encoder that turns the events of a value's
//! traversal into a `yaml_rust::Yaml` document, and entry points that render
//! such a document to text, with machine-checked contracts over a
//! mathematical model of the document.

pub mod error;
pub mod laws;
pub mod render;
pub mod ser;
pub mod tree;

pub use crate::error::Error;
pub use crate::render::{to_string, to_vec, to_writer};
pub use crate::ser::Serializer;
