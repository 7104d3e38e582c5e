use vstd::prelude::*;

verus! {

/// `lzma::LzmaError`, the error of the stream engine. It is carried through
/// and never looked into.
#[verifier::external_type_specification]
#[verifier::external_body]
pub struct ExLzmaError(lzma::LzmaError);

/// The stream that the stream engine makes of `data` at the level `preset`.
pub uninterp spec fn lzma_encoded(data: Seq<u8>, preset: u32) -> Seq<u8>;

/// The payload that the stream engine decodes `stream` to.
pub uninterp spec fn lzma_decoded(stream: Seq<u8>) -> Seq<u8>;

/// `lzma::compress` encodes all of `buf` at the level `preset`. Where it
/// succeeds, the bytes it returns are the stream that the encoder makes of
/// these bytes at this level. Nothing is claimed of when it fails, nor of
/// what the stream looks like.
pub assume_specification[ lzma::compress ](buf: &[u8], preset: u32) -> (r: Result<
    Vec<u8>,
    lzma::LzmaError,
>)
    ensures
        r matches Ok(stream) ==> stream@ == lzma_encoded(buf@, preset),
;

/// `lzma::decompress` decodes the stream that `buf` starts with. Where it
/// succeeds, the bytes it returns are the payload that the decoder reads out
/// of these bytes. Nothing is claimed of when it fails, nor of the payload.
pub assume_specification[ lzma::decompress ](buf: &[u8]) -> (r: Result<Vec<u8>, lzma::LzmaError>)
    ensures
        r matches Ok(payload) ==> payload@ == lzma_decoded(buf@),
;

} // verus!
