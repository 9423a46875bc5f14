use crate::header::Header;
use crate::pack::BoxPack;
use vstd::prelude::*;
use vstd::slice::slice_to_vec;

verus! {

/// Used to deserialize a message's raw payload into a specific structure.
///
/// Construction is fallible: an unrecognized type tag or malformed payload
/// bytes must be reported as the implementor's own typed error, never
/// panicked on or silently coerced into a fabricated value. An implementor
/// fixes, through [`BoxDeserializer::spec_deserialized`], which outcomes are
/// acceptable for a given header and payload.
pub trait BoxDeserializer: Sized {
    type Error;

    /// Which outcomes `deserialize_box` may produce from a message with this
    /// header and these payload bytes. Unless an implementor overrides this
    /// with something tighter, every outcome is acceptable and nothing is
    /// promised of the conversion.
    open spec fn spec_deserialized(
        header: Header,
        data: Seq<u8>,
        r: Result<Self, Self::Error>,
    ) -> bool {
        true
    }

    /// Construct Self from a BoxPack.
    fn deserialize_box(data: BoxPack<'_>) -> (r: Result<Self, Self::Error>)
        ensures
            Self::spec_deserialized(data.header, data.data@, r),
    ;
}

/// A message can always be deserialized into the raw bytes of its payload:
/// the baseline pass-through for untyped or opaque traffic.
impl BoxDeserializer for Vec<u8> {
    type Error = std::convert::Infallible;

    /// Succeeds exactly with a copy of the payload bytes; never fails.
    open spec fn spec_deserialized(header: Header, data: Seq<u8>, r: Result<
        Self,
        Self::Error,
    >) -> bool {
        match r {
            Ok(v) => v@ == data,
            Err(_) => false,
        }
    }

    fn deserialize_box(data: BoxPack<'_>) -> (r: Result<Self, Self::Error>) {
        Ok(slice_to_vec(data.data.as_ref()))
    }
}

} // verus!
