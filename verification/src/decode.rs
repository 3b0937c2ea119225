//! The decoder: a blob is a framed-compressed byte stream whose decompressed
//! bytes must spell a collection document. The two failure points are kept
//! apart: a corrupt frame is a decompression failure, bytes that are not a
//! valid document are a parse failure.

use vstd::prelude::*;

use crate::errors::ContentError;
use crate::json::collection_of_json;
use crate::json::collection_from_value;
use crate::json::json_of;
use crate::json::parse_value;
use crate::model::CollectionModel;
use crate::model::ContentCollection;

verus! {

/// What decompressing a framed byte stream yields, if anything: a function of
/// the bytes alone.
pub uninterp spec fn lz4_decode(b: Seq<u8>) -> Option<Seq<u8>>;

/// Relies on lz4_flex's frame::FrameDecoder (through io::Read::read_to_end):
/// decompression succeeds or fails by the bytes alone, and yields the bytes
/// the frame encodes.
#[verifier::external_body]
fn lz4_decompress(b: &[u8]) -> (r: Option<Vec<u8>>)
    ensures
        r is Some <==> lz4_decode(b@) is Some,
        r matches Some(d) ==> lz4_decode(b@) == Some(d@),
{
    let mut decoder = lz4_flex::frame::FrameDecoder::new(b);
    let mut out: Vec<u8> = Vec::new();
    match std::io::Read::read_to_end(&mut decoder, &mut out) {
        Ok(_) => Some(out),
        Err(_) => None,
    }
}

/// What decoding a blob yields: the collection its bytes spell, or the first
/// failure along the pipeline.
pub open spec fn spec_decode(b: Seq<u8>) -> Result<CollectionModel, ContentError> {
    match lz4_decode(b) {
        None => Err(ContentError::DecompressionFailure),
        Some(d) => match json_of(d) {
            None => Err(ContentError::ParseFailure),
            Some(j) => match collection_of_json(j) {
                None => Err(ContentError::ParseFailure),
                Some(c) => Ok(c),
            },
        },
    }
}

/// Decompress and parse one blob. Exactly `spec_decode` of its bytes: a bad
/// frame is a `DecompressionFailure`, anything that does not spell a
/// collection document is a `ParseFailure`.
pub fn decode(b: &[u8]) -> (r: Result<ContentCollection, ContentError>)
    ensures
        r matches Ok(c) ==> spec_decode(b@) == Ok::<CollectionModel, ContentError>(c@),
        r matches Err(e) ==> spec_decode(b@) == Err::<CollectionModel, ContentError>(e),
{
    let data = match lz4_decompress(b) {
        Some(d) => d,
        None => { return Err(ContentError::DecompressionFailure) },
    };
    let value = match parse_value(data.as_slice()) {
        Some(v) => v,
        None => { return Err(ContentError::ParseFailure) },
    };
    match collection_from_value(&value) {
        Some(c) => Ok(c),
        None => Err(ContentError::ParseFailure),
    }
}

} // verus!
