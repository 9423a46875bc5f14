//! The wide wire layout: a [`Header`] whose size field is 64 bits.
//!
//! This layout and the 32-bit one in [`crate::header`] are not
//! interchangeable on the wire: their headers differ in total size
//! (11 bytes here against 7), so a reader must commit to one of the two.

use crate::data::Data;
use vstd::bytes::*;
use vstd::prelude::*;
use vstd::slice::slice_subrange;

verus! {

/// The fixed-width metadata prefix of a message, wide layout.
///
/// Wire layout (no inter-field padding, every field little-endian):
/// `data_size` (8 bytes), then `data_type` (2 bytes), then `queue` (1 byte).
#[derive(Copy, Clone, Debug, PartialEq, Eq, Structural)]
pub struct Header {
    pub data_size: u64,
    pub data_type: u16,
    pub queue: u8,
}

impl Header {
    /// Size of the Header in bytes.
    pub const SIZE: usize = 11;

    /// The wire bytes of this header: the three fields little-endian,
    /// concatenated in order with no padding.
    pub open spec fn spec_encoded(self) -> Seq<u8> {
        spec_u64_to_le_bytes(self.data_size) + spec_u16_to_le_bytes(self.data_type)
            + seq![self.queue]
    }

    /// The header that a byte string of exactly [`Header::SIZE`] bytes stands
    /// for. Decoding never fails: any bit pattern of the right length is some
    /// header.
    pub open spec fn spec_decoded(bytes: Seq<u8>) -> Header
        recommends
            bytes.len() == Header::SIZE,
    {
        Header {
            data_size: spec_u64_from_le_bytes(bytes.subrange(0, 8)),
            data_type: spec_u16_from_le_bytes(bytes.subrange(8, 10)),
            queue: bytes[10],
        }
    }

    /// Returns the data_size.
    pub fn get_data_size(&self) -> (r: u64)
        ensures
            r == self.data_size,
    {
        self.data_size
    }

    /// Returns the data_type.
    pub fn get_data_type(&self) -> (r: u16)
        ensures
            r == self.data_type,
    {
        self.data_type
    }

    /// Returns the queue.
    pub fn get_data_queue(&self) -> (r: u8)
        ensures
            r == self.queue,
    {
        self.queue
    }

    /// Creates a new Header based on a given data.
    ///
    /// `data_size` is the exact byte length of `data`; a 64-bit field always
    /// holds it without narrowing.
    pub(crate) fn build_for_data<'a>(data: &Data<'a>, data_type: u16, queue: u8) -> (h: Self)
        ensures
            h.data_size == data@.len(),
            h.data_type == data_type,
            h.queue == queue,
    {
        let n = data.len();
        Header { data_size: n as u64, data_type, queue }
    }

    /// Encodes the Header into its wire bytes.
    pub fn into_array(self) -> (r: [u8; 11])
        ensures
            r@ == self.spec_encoded(),
    {
        let size_bytes = u64_to_le_bytes(self.data_size);
        let type_bytes = u16_to_le_bytes(self.data_type);
        let r: [u8; 11] = [
            size_bytes[0],
            size_bytes[1],
            size_bytes[2],
            size_bytes[3],
            size_bytes[4],
            size_bytes[5],
            size_bytes[6],
            size_bytes[7],
            type_bytes[0],
            type_bytes[1],
            self.queue,
        ];
        proof {
            assert(r@ =~= self.spec_encoded());
        }
        r
    }

    /// Decodes wire bytes back into a Header.
    ///
    /// The header is built from the array no matter what values it holds;
    /// no validation is performed.
    pub fn from_array(bytes: [u8; 11]) -> (h: Header)
        ensures
            h == Header::spec_decoded(bytes@),
    {
        let s = bytes.as_slice();
        let data_size = u64_from_le_bytes(slice_subrange(s, 0, 8));
        let data_type = u16_from_le_bytes(slice_subrange(s, 8, 10));
        let queue = bytes[10];
        Header { data_size, data_type, queue }
    }
}

/// Decoding inverts encoding: every wide header decodes from its own wire
/// bytes back to itself.
pub proof fn lemma_header_decode_of_encode(h: Header)
    ensures
        Header::spec_decoded(h.spec_encoded()) == h,
{
    lemma_auto_spec_u64_to_from_le_bytes();
    lemma_auto_spec_u16_to_from_le_bytes();
    let e = h.spec_encoded();
    assert(e.subrange(0, 8) =~= spec_u64_to_le_bytes(h.data_size));
    assert(e.subrange(8, 10) =~= spec_u16_to_le_bytes(h.data_type));
}

/// Encoding inverts decoding: every byte string of exactly [`Header::SIZE`]
/// bytes is reproduced bit-exactly by encoding the header it decodes to.
pub proof fn lemma_header_encode_of_decode(bytes: Seq<u8>)
    requires
        bytes.len() == Header::SIZE,
    ensures
        Header::spec_decoded(bytes).spec_encoded() == bytes,
{
    lemma_auto_spec_u64_to_from_le_bytes();
    lemma_auto_spec_u16_to_from_le_bytes();
    let h = Header::spec_decoded(bytes);
    assert(spec_u64_to_le_bytes(h.data_size) == bytes.subrange(0, 8));
    assert(spec_u16_to_le_bytes(h.data_type) == bytes.subrange(8, 10));
    assert(h.spec_encoded() =~= bytes);
}

/// A message of the wide wire layout.
pub struct BoxPack<'d> {
    pub header: Header,
    pub data: Data<'d>,
}

impl<'d> BoxPack<'d> {
    /// The header's size field equals the payload's byte length. Established
    /// at construction and kept for the lifetime of the BoxPack.
    pub open spec fn wf(self) -> bool {
        self.header.data_size == self.data@.len()
    }

    /// Creates a new message around its payload: the header is derived from
    /// `data`'s length, so header and payload can never desynchronize
    /// through this API.
    pub fn new(data: Data<'d>, data_type: u16, queue: u8) -> (p: Self)
        ensures
            p.header.data_size == data@.len(),
            p.header.data_type == data_type,
            p.header.queue == queue,
            p.data@ == data@,
            p.data.is_owned() == data.is_owned(),
            p.wf(),
    {
        Self { header: Header::build_for_data(&data, data_type, queue), data }
    }
}

} // verus!
