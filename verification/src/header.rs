use crate::data::Data;
use vstd::bytes::*;
use vstd::prelude::*;
use vstd::slice::slice_subrange;

verus! {

/// The fixed-width metadata prefix of a message.
///
/// Wire layout (no inter-field padding, every field little-endian):
/// `data_size` (4 bytes), then `data_type` (2 bytes), then `queue` (1 byte).
///
/// # Fields
/// - `data_size` - unsigned 32 bit value telling the reader the byte length of the incoming payload
/// - `data_type` - unsigned 16 bit value telling the reader the schema of the incoming payload
/// - `queue` - unsigned 8 bit value telling the server which queue should handle the message
#[derive(Copy, Clone, Debug, PartialEq, Eq, Structural)]
pub struct Header {
    pub data_size: u32,
    pub data_type: u16,
    pub queue: u8,
}

impl Header {
    /// Size of the Header in bytes.
    pub const SIZE: usize = 7;

    /// The wire bytes of this header: the three fields little-endian,
    /// concatenated in order with no padding.
    pub open spec fn spec_encoded(self) -> Seq<u8> {
        spec_u32_to_le_bytes(self.data_size) + spec_u16_to_le_bytes(self.data_type)
            + seq![self.queue]
    }

    /// The header that a byte string of exactly [`Header::SIZE`] bytes stands
    /// for. Decoding never fails: any bit pattern of the right length is some
    /// header.
    pub open spec fn spec_decoded(bytes: Seq<u8>) -> Header
        recommends
            bytes.len() == Header::SIZE,
    {
        Header {
            data_size: spec_u32_from_le_bytes(bytes.subrange(0, 4)),
            data_type: spec_u16_from_le_bytes(bytes.subrange(4, 6)),
            queue: bytes[6],
        }
    }

    /// Returns the data_size.
    pub fn get_data_size(&self) -> (r: u32)
        ensures
            r == self.data_size,
    {
        self.data_size
    }

    /// Returns the data_type.
    pub fn get_data_type(&self) -> (r: u16)
        ensures
            r == self.data_type,
    {
        self.data_type
    }

    /// Returns the queue.
    pub fn get_data_queue(&self) -> (r: u8)
        ensures
            r == self.queue,
    {
        self.queue
    }

    /// Creates a new Header based on a given data.
    ///
    /// `data_size` is computed as the exact byte length of `data`, narrowed
    /// to the field's 32-bit width. The narrowing is silent: if the true
    /// length exceeds the representable range, high-order bits are dropped
    /// and no error is raised.
    ///
    /// # Fields
    /// - `data` - the Data to build the Header for
    /// - `data_type` - type of the Data
    /// - `queue` - the queue number
    pub(crate) fn build_for_data<'a>(data: &Data<'a>, data_type: u16, queue: u8) -> (h: Self)
        ensures
            h.data_size == data@.len() as u32,
            h.data_type == data_type,
            h.queue == queue,
    {
        let n = data.len();
        let data_size = #[verifier::truncate] (n as u32);
        Header { data_size, data_type, queue }
    }

    /// Encodes the Header into its wire bytes.
    pub fn into_array(self) -> (r: [u8; 7])
        ensures
            r@ == self.spec_encoded(),
    {
        let size_bytes = u32_to_le_bytes(self.data_size);
        let type_bytes = u16_to_le_bytes(self.data_type);
        let r: [u8; 7] = [
            size_bytes[0],
            size_bytes[1],
            size_bytes[2],
            size_bytes[3],
            type_bytes[0],
            type_bytes[1],
            self.queue,
        ];
        proof {
            assert(r@ =~= self.spec_encoded());
        }
        r
    }

    /// Decodes wire bytes back into a Header.
    ///
    /// The header is built from the array no matter what values it holds;
    /// no validation is performed.
    pub fn from_array(bytes: [u8; 7]) -> (h: Header)
        ensures
            h == Header::spec_decoded(bytes@),
    {
        let s = bytes.as_slice();
        let data_size = u32_from_le_bytes(slice_subrange(s, 0, 4));
        let data_type = u16_from_le_bytes(slice_subrange(s, 4, 6));
        let queue = bytes[6];
        Header { data_size, data_type, queue }
    }
}

/// Decoding inverts encoding: every header decodes from its own wire bytes
/// back to itself.
pub proof fn lemma_header_decode_of_encode(h: Header)
    ensures
        Header::spec_decoded(h.spec_encoded()) == h,
{
    lemma_auto_spec_u32_to_from_le_bytes();
    lemma_auto_spec_u16_to_from_le_bytes();
    let e = h.spec_encoded();
    assert(e.subrange(0, 4) =~= spec_u32_to_le_bytes(h.data_size));
    assert(e.subrange(4, 6) =~= spec_u16_to_le_bytes(h.data_type));
}

/// Encoding inverts decoding: every byte string of exactly [`Header::SIZE`]
/// bytes is reproduced bit-exactly by encoding the header it decodes to.
pub proof fn lemma_header_encode_of_decode(bytes: Seq<u8>)
    requires
        bytes.len() == Header::SIZE,
    ensures
        Header::spec_decoded(bytes).spec_encoded() == bytes,
{
    lemma_auto_spec_u32_to_from_le_bytes();
    lemma_auto_spec_u16_to_from_le_bytes();
    let h = Header::spec_decoded(bytes);
    assert(spec_u32_to_le_bytes(h.data_size) == bytes.subrange(0, 4));
    assert(spec_u16_to_le_bytes(h.data_type) == bytes.subrange(4, 6));
    assert(h.spec_encoded() =~= bytes);
}

} // verus!
