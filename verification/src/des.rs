use crate::deserializer::BoxDeserializer;
use crate::header::Header;
use crate::pack::BoxPack;
use vstd::prelude::*;

verus! {

/// Message representation after payload deserialization: the raw bytes have
/// been interpreted into a desired structure, and the original header is
/// retained for inspection (type tag, queue) alongside the typed value.
///
/// Used for handling and presenting the data.
#[derive(Clone, Debug)]
pub struct BoxDes<T: BoxDeserializer> {
    pub header: Header,
    pub data: T,
}

impl<T: BoxDeserializer> BoxDes<T> {
    /// Attempts the deserializer conversion on a message. It fails exactly
    /// when the deserializer fails, with the identical error value, and on
    /// success retains the original header alongside the parsed value.
    pub fn try_from(box_pack: BoxPack<'_>) -> (r: Result<Self, T::Error>)
        ensures
            match r {
                Ok(d) => d.header == box_pack.header && T::spec_deserialized(
                    box_pack.header,
                    box_pack.data@,
                    Ok(d.data),
                ),
                Err(e) => T::spec_deserialized(box_pack.header, box_pack.data@, Err(e)),
            },
    {
        let header = box_pack.header;
        match T::deserialize_box(box_pack) {
            Ok(data) => Ok(Self { header, data }),
            Err(e) => Err(e),
        }
    }
}

} // verus!
