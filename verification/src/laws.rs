use crate::deserializer::BoxDeserializer;
use crate::header::Header;
use crate::serializer::BoxSerializer;
use vstd::prelude::*;

verus! {

/// Raw-bytes round trip: serializing a raw byte buffer and deserializing the
/// resulting payload — under whatever header the message carries — always
/// succeeds and yields a buffer with exactly the original bytes.
pub proof fn lemma_raw_bytes_round_trip(
    v: Vec<u8>,
    data_type: u16,
    queue: u8,
    header: Header,
    bytes: Seq<u8>,
    r: Result<Vec<u8>, std::convert::Infallible>,
)
    requires
        v.spec_serialized(data_type, queue) == Ok::<Seq<u8>, std::convert::Infallible>(bytes),
        <Vec<u8> as BoxDeserializer>::spec_deserialized(header, bytes, r),
    ensures
        r matches Ok(w) && w@ == v@,
{
}

} // verus!
