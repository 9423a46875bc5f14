use crate::data::{data_to_owned, Data};
use crate::header::Header;
use vstd::prelude::*;
use vstd::slice::slice_to_vec;

verus! {

/// Message representation with raw payload bytes (packed): the producer-facing,
/// wire-ready unit, used for temporary keeping before sending or receiving.
///
/// A BoxPack is transient: produced, then consumed exactly once, either by a
/// wire-write operation or by a deserializer conversion.
#[derive(Clone)]
pub struct BoxPack<'d> {
    pub header: Header,
    pub data: Data<'d>,
}

impl<'d> BoxPack<'d> {
    /// The header's size field equals the payload's byte length, narrowed to
    /// the field's 32-bit width. Established at construction and kept for the
    /// lifetime of the BoxPack.
    pub open spec fn wf(self) -> bool {
        self.header.data_size == self.data@.len() as u32
    }

    /// Creates a new message around its payload: the sole producer-side
    /// constructor. The header is derived from `data`'s length, so header and
    /// payload can never desynchronize through this API.
    pub fn new(data: Data<'d>, data_type: u16, queue: u8) -> (p: Self)
        ensures
            p.header.data_size == data@.len() as u32,
            p.header.data_type == data_type,
            p.header.queue == queue,
            p.data@ == data@,
            p.data.is_owned() == data.is_owned(),
            p.wf(),
    {
        Self { header: Header::build_for_data(&data, data_type, queue), data }
    }

    /// The wire bytes of the whole message: the encoded header immediately
    /// followed by the raw payload bytes.
    pub fn make_packet(&self) -> (packet: Vec<u8>)
        ensures
            packet@ == self.header.spec_encoded() + self.data@,
    {
        let header_bytes = self.header.into_array();
        let mut packet: Vec<u8> = slice_to_vec(header_bytes.as_slice());
        let mut rest: Vec<u8> = slice_to_vec(self.data.as_ref());
        packet.append(&mut rest);
        packet
    }

    /// Writes the wire bytes of this message to the sink, blocking the
    /// calling thread until the sink has accepted all of them. The bytes
    /// handed to the sink are exactly [`BoxPack::make_packet`]'s. A sink
    /// failure aborts the write and is propagated unmodified; no retry or
    /// rollback of a partially flushed header is attempted.
    pub fn write_sync<W: std::io::Write>(&self, writer: &mut W) -> Result<(), std::io::Error> {
        let packet = self.make_packet();
        write_all_bytes(writer, packet.as_slice())
    }
}

/// Produces a message independent of any borrowed source buffer, with the
/// same header and equal payload bytes; used before handing a BoxPack across
/// a boundary where the source buffer's lifetime is not guaranteed.
pub fn box_to_owned(box_pack: BoxPack<'_>) -> (r: BoxPack<'static>)
    ensures
        r.header == box_pack.header,
        r.data@ == box_pack.data@,
        r.data.is_owned(),
        box_pack.wf() ==> r.wf(),
{
    BoxPack { header: box_pack.header, data: data_to_owned(box_pack.data) }
}

/// Framing: in the wire bytes of a message ([`BoxPack::make_packet`]'s
/// result), the first [`Header::SIZE`] bytes decode back to exactly the
/// message's header, and the remaining bytes are exactly the payload. An
/// external reader that takes [`Header::SIZE`] bytes, decodes them, and then
/// takes `data_size` further bytes therefore reassembles the message that was
/// written.
pub proof fn lemma_packet_framing(h: Header, payload: Seq<u8>, packet: Seq<u8>)
    requires
        packet == h.spec_encoded() + payload,
    ensures
        packet.len() == Header::SIZE + payload.len(),
        Header::spec_decoded(packet.subrange(0, Header::SIZE as int)) == h,
        packet.subrange(Header::SIZE as int, packet.len() as int) == payload,
{
    vstd::bytes::lemma_auto_spec_u32_to_from_le_bytes();
    vstd::bytes::lemma_auto_spec_u16_to_from_le_bytes();
    assert(packet.subrange(0, Header::SIZE as int) =~= h.spec_encoded());
    crate::header::lemma_header_decode_of_encode(h);
    assert(packet.subrange(Header::SIZE as int, packet.len() as int) =~= payload);
}

/// Relies on std::io::Error: the opaque error value a sink reports. The
/// library never inspects one, it only hands it back to the caller.
#[verifier::external_type_specification]
#[verifier::external_body]
pub struct ExIoError(std::io::Error);

/// Relies on std::io::Write::write_all: writes the whole buffer to the sink,
/// or returns the first error the sink reports. Nothing is promised of the
/// opaque sink either way.
#[verifier::external_body]
fn write_all_bytes<W: std::io::Write>(writer: &mut W, bytes: &[u8]) -> Result<
    (),
    std::io::Error,
> {
    writer.write_all(bytes)
}

} // verus!
