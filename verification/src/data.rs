use vstd::prelude::*;
use vstd::slice::slice_to_vec;

verus! {

/// The payload byte buffer of a message: either a borrowed view into
/// caller-owned memory (zero-copy) or an independently owned allocation.
#[derive(Debug, Clone)]
enum DataBytes<'a> {
    Borrowed(&'a [u8]),
    Owned(Vec<u8>),
}

/// The data part of a message.
///
/// The content is an immutable byte sequence, never mutated in place. Its
/// abstract value is the byte sequence `self@`; whether the bytes are
/// borrowed or owned ([`Data::is_owned`]) never changes that value.
///
/// # Fields
/// - `bytes` - owned or borrowed bytes ready to be sent
#[derive(Debug, Clone)]
pub struct Data<'a> {
    bytes: DataBytes<'a>,
}

impl<'a> View for Data<'a> {
    type V = Seq<u8>;

    closed spec fn view(&self) -> Seq<u8> {
        match self.bytes {
            DataBytes::Borrowed(b) => b@,
            DataBytes::Owned(v) => v@,
        }
    }
}

impl<'a> Data<'a> {
    /// True when the bytes are an independently owned allocation, whose
    /// lifetime does not depend on any caller-held buffer.
    pub closed spec fn is_owned(self) -> bool {
        self.bytes is Owned
    }

    /// True when the bytes are a borrowed view into a caller-held buffer.
    pub open spec fn is_borrowed(self) -> bool {
        !self.is_owned()
    }

    /// Wraps a borrowed slice without copying it.
    pub fn borrowed(bytes: &'a [u8]) -> (d: Data<'a>)
        ensures
            d@ == bytes@,
            d.is_borrowed(),
    {
        Data { bytes: DataBytes::Borrowed(bytes) }
    }

    /// Takes ownership of a buffer without copying it.
    pub fn owned(bytes: Vec<u8>) -> (d: Data<'a>)
        ensures
            d@ == bytes@,
            d.is_owned(),
    {
        Data { bytes: DataBytes::Owned(bytes) }
    }

    /// The exact byte length of the payload.
    pub fn len(&self) -> (n: usize)
        ensures
            n == self@.len(),
    {
        match &self.bytes {
            DataBytes::Borrowed(b) => b.len(),
            DataBytes::Owned(v) => v.len(),
        }
    }

    /// The payload as a byte slice, for all read access.
    pub fn as_ref(&self) -> (s: &[u8])
        ensures
            s@ == self@,
    {
        match &self.bytes {
            DataBytes::Borrowed(b) => b,
            DataBytes::Owned(v) => v.as_slice(),
        }
    }
}

/// Detaches a Data from any borrowed source, producing a Data with the same
/// content whose lifetime is independent of the original buffer.
pub fn data_to_owned(data: Data<'_>) -> (r: Data<'static>)
    ensures
        r@ == data@,
        r.is_owned(),
{
    match data.bytes {
        DataBytes::Borrowed(b) => Data { bytes: DataBytes::Owned(slice_to_vec(b)) },
        DataBytes::Owned(v) => Data { bytes: DataBytes::Owned(v) },
    }
}

impl<'a> vstd::std_specs::convert::FromSpecImpl<&'a [u8]> for Data<'a> {
    open spec fn obeys_from_spec() -> bool {
        true
    }

    closed spec fn from_spec(bytes: &'a [u8]) -> Data<'a> {
        Data { bytes: DataBytes::Borrowed(bytes) }
    }
}

impl<'a> From<&'a [u8]> for Data<'a> {
    /// Wraps a borrowed slice without copying it.
    fn from(bytes: &'a [u8]) -> (d: Data<'a>)
        ensures
            d@ == bytes@,
            d.is_borrowed(),
    {
        Data { bytes: DataBytes::Borrowed(bytes) }
    }
}

impl<'a> vstd::std_specs::convert::FromSpecImpl<Vec<u8>> for Data<'a> {
    open spec fn obeys_from_spec() -> bool {
        true
    }

    closed spec fn from_spec(bytes: Vec<u8>) -> Data<'a> {
        Data { bytes: DataBytes::Owned(bytes) }
    }
}

impl<'a> From<Vec<u8>> for Data<'a> {
    /// Takes ownership of a buffer without copying it.
    fn from(bytes: Vec<u8>) -> (d: Data<'a>)
        ensures
            d@ == bytes@,
            d.is_owned(),
    {
        Data { bytes: DataBytes::Owned(bytes) }
    }
}

impl<'a> vstd::std_specs::convert::FromSpecImpl<&'a Vec<u8>> for Data<'a> {
    // A borrowed slice of the vector has no spec-level constructor, so this
    // conversion is pinned down by the `ensures` on `from` below instead.
    open spec fn obeys_from_spec() -> bool {
        false
    }

    closed spec fn from_spec(bytes: &'a Vec<u8>) -> Data<'a> {
        arbitrary()
    }
}

impl<'a> From<&'a Vec<u8>> for Data<'a> {
    /// Borrows a view into an owned buffer without copying it.
    fn from(bytes: &'a Vec<u8>) -> (d: Data<'a>)
        ensures
            d@ == bytes@,
            d.is_borrowed(),
    {
        Data { bytes: DataBytes::Borrowed(bytes.as_slice()) }
    }
}

} // verus!
