//! The error taxonomy of the content-access layer, with the mapping from each
//! kind to the status and code that the service boundary presents.

use vstd::prelude::*;

verus! {

/// Every way a content read can fail. Each kind is terminal for the request
/// that raised it and never leaves a partial cache entry behind.
#[derive(Clone, Copy, Debug, PartialEq, Eq, Structural)]
pub enum ContentError {
    /// The alias is unknown to the metadata index: an expected, user-facing
    /// miss.
    MetadataNotFound,
    /// Metadata exists but the blob file is absent: a data-integrity anomaly.
    BlobNotFound,
    /// The blob bytes are not a valid compressed frame.
    DecompressionFailure,
    /// The blob decompresses, but the bytes are not a valid collection
    /// document.
    ParseFailure,
    /// The collection exists but holds no item with the requested id.
    ItemNotFound,
    /// The hand-off to the decode execution context failed, as opposed to the
    /// decode logic itself.
    ExecutionFailure,
}

impl ContentError {
    /// The three lookup misses present as a generic "not found" to external
    /// callers; everything else is an opaque internal failure.
    pub open spec fn spec_is_not_found(self) -> bool {
        self == ContentError::MetadataNotFound || self == ContentError::BlobNotFound
            || self == ContentError::ItemNotFound
    }

    pub fn is_not_found(&self) -> (r: bool)
        ensures
            r == self.spec_is_not_found(),
    {
        match self {
            ContentError::MetadataNotFound => true,
            ContentError::BlobNotFound => true,
            ContentError::ItemNotFound => true,
            _ => false,
        }
    }

    /// The HTTP status the boundary answers with: 404 for the lookup misses,
    /// 500 for every internal kind.
    pub fn status_code(&self) -> (r: u16)
        ensures
            self.spec_is_not_found() ==> r == 404,
            !self.spec_is_not_found() ==> r == 500,
    {
        if self.is_not_found() {
            404
        } else {
            500
        }
    }

    /// The machine-readable code of the public error body. No internal detail
    /// (paths, decode internals) appears here.
    pub fn public_code(&self) -> (r: &'static str)
        ensures
            self.spec_is_not_found() <==> r@ == "NOT_FOUND"@,
            self == ContentError::DecompressionFailure <==> r@ == "DECOMPRESSION_ERROR"@,
            self == ContentError::ParseFailure <==> r@ == "SERIALIZATION_ERROR"@,
            self == ContentError::ExecutionFailure <==> r@ == "INTERNAL_ERROR"@,
    {
        proof {
            reveal_strlit("NOT_FOUND");
            reveal_strlit("DECOMPRESSION_ERROR");
            reveal_strlit("SERIALIZATION_ERROR");
            reveal_strlit("INTERNAL_ERROR");
            assert("NOT_FOUND"@.len() == 9);
            assert("DECOMPRESSION_ERROR"@.len() == 19);
            assert("SERIALIZATION_ERROR"@.len() == 19);
            assert("INTERNAL_ERROR"@.len() == 14);
            assert("DECOMPRESSION_ERROR"@[0] == 'D');
            assert("SERIALIZATION_ERROR"@[0] == 'S');
        }
        match self {
            ContentError::MetadataNotFound => "NOT_FOUND",
            ContentError::BlobNotFound => "NOT_FOUND",
            ContentError::ItemNotFound => "NOT_FOUND",
            ContentError::DecompressionFailure => "DECOMPRESSION_ERROR",
            ContentError::ParseFailure => "SERIALIZATION_ERROR",
            ContentError::ExecutionFailure => "INTERNAL_ERROR",
        }
    }
}

} // verus!
