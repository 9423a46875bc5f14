use crate::data::Data;
use crate::pack::{box_to_owned, BoxPack};
use vstd::prelude::*;

verus! {

/// Used to serialize a specific structure into a raw-byte message.
///
/// An implementor fixes, through [`BoxSerializer::spec_serialized`], which
/// payload bytes (or which typed error) each of its values serializes to;
/// both conversion methods must produce exactly those bytes, framed by a
/// header derived from their length.
pub trait BoxSerializer: Sized {
    type Error;

    /// The payload bytes this value serializes to, or the typed error
    /// reported instead.
    spec fn spec_serialized(&self, data_type: u16, queue: u8) -> Result<Seq<u8>, Self::Error>;

    /// A non-owning conversion that may borrow directly from the payload's
    /// own internal buffer, avoiding any copy.
    fn serialize_box(&self, data_type: u16, queue: u8) -> (r: Result<BoxPack<'_>, Self::Error>)
        ensures
            match (r, self.spec_serialized(data_type, queue)) {
                (Ok(p), Ok(bytes)) => {
                    &&& p.data@ == bytes
                    &&& p.header.data_size == bytes.len() as u32
                    &&& p.header.data_type == data_type
                    &&& p.header.queue == queue
                    &&& p.wf()
                },
                (Err(e), Err(se)) => e == se,
                _ => false,
            },
    ;

    /// An owning conversion that additionally detaches the result from the
    /// payload's lifetime: by default, the non-owning conversion followed by
    /// [`box_to_owned`]. Copies only when forced to.
    fn serialize_owned_box(self, data_type: u16, queue: u8) -> (r: Result<
        BoxPack<'static>,
        Self::Error,
    >)
        ensures
            match (r, self.spec_serialized(data_type, queue)) {
                (Ok(p), Ok(bytes)) => {
                    &&& p.data@ == bytes
                    &&& p.header.data_size == bytes.len() as u32
                    &&& p.header.data_type == data_type
                    &&& p.header.queue == queue
                    &&& p.wf()
                    &&& p.data.is_owned()
                },
                (Err(e), Err(se)) => e == se,
                _ => false,
            },
    {
        let box_pack = match self.serialize_box(data_type, queue) {
            Ok(p) => p,
            Err(e) => {
                return Err(e);
            },
        };
        Ok(box_to_owned(box_pack))
    }
}

/// A raw byte buffer can always be serialized: its payload bytes are its own
/// bytes, identically, and no error is ever reported.
impl BoxSerializer for Vec<u8> {
    type Error = std::convert::Infallible;

    open spec fn spec_serialized(&self, data_type: u16, queue: u8) -> Result<
        Seq<u8>,
        Self::Error,
    > {
        Ok(self@)
    }

    /// Borrows the buffer: the message's payload is a view into it, with no
    /// allocation and no copy.
    fn serialize_box(&self, data_type: u16, queue: u8) -> (r: Result<BoxPack<'_>, Self::Error>)
        ensures
            r matches Ok(p) ==> p.data.is_borrowed(),
    {
        Ok(BoxPack::new(Data::borrowed(self.as_slice()), data_type, queue))
    }

    /// Moves the buffer into the message instead of copying it.
    fn serialize_owned_box(self, data_type: u16, queue: u8) -> (r: Result<
        BoxPack<'static>,
        Self::Error,
    >) {
        Ok(BoxPack::new(Data::owned(self), data_type, queue))
    }
}

} // verus!
