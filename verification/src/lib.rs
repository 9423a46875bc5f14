//! A minimal binary message-framing library.
//!
//! Every message is a fixed-width [`Header`] followed by a variable-length
//! payload ([`data::Data`]). The header carries the payload's exact byte
//! length, a numeric type tag selecting the payload's schema, and a queue
//! (routing) hint. [`BoxPack`] pairs a header with raw payload bytes and is
//! the wire-ready unit; [`BoxDes`] pairs a header with an already-interpreted
//! typed payload. The [`serializer::BoxSerializer`] and
//! [`deserializer::BoxDeserializer`] traits let arbitrary payload types
//! round-trip through the wire format.

pub mod data;
pub mod des;
pub mod deserializer;
pub mod header;
pub mod laws;
pub mod pack;
pub mod serializer;
pub mod wide;

pub use data::{data_to_owned, Data};
pub use des::BoxDes;
pub use header::Header;
pub use pack::{box_to_owned, BoxPack};
