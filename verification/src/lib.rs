//! A bridge between the tree of a parsed Gura document and a
//! structure-driven data model.
//!
//! - [`node`]: the document tree and its mathematical value.
//! - [`de`]: the reader, which narrows the node in focus to the shape that a
//!   caller asks for and says what to hand to the caller, or fails.
//! - [`ser`]: the writer, which makes nodes from scalars and builds arrays
//!   and objects from streams of element, field and variant calls.
//! - [`error`]: the errors of both, and their messages.
//! - [`laws`]: what holds between the writer and the reader.
//!
//! Text is parsed and printed elsewhere: the library starts from a tree and
//! ends with one.

pub mod de;
pub mod error;
pub mod laws;
pub mod node;
pub mod ser;

pub use crate::de::{CommaSeparated, Deserializer, Enum, Visit};
pub use crate::error::{write_error, Error};
pub use crate::node::{Fields, Node};
pub use crate::ser::{
    singleton_hash, SerializeArray, SerializeMap, SerializeStruct, SerializeStructVariant,
    SerializeTupleVariant, Serializer,
};
