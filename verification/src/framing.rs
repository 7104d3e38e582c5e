use vstd::prelude::*;
use crate::bytes::{
    be_bytes, le_u32, read_le_u32, remove_range, rotate_right, without_range, zeros,
};
use crate::error::ScError;
use crate::signature::Signature;

verus! {

/// The value of the four-byte size field that stands for "size not recorded".
pub const UNKNOWN_SIZE: u32 = 0xffff_ffff;

/// The length of the shortest stream body: the byte of properties, the four
/// bytes of the dictionary size and the four-byte size field.
pub const SHORT_HEADER_LEN: usize = 9;

/// The number of bytes that stand before the stream in a buffer framed as
/// `sig`. For the extended container this is the header alone, without the
/// size that follows it.
pub open spec fn header_len(sig: Signature) -> nat {
    match sig {
        Signature::NONE => 0,
        Signature::LZMA => 0,
        Signature::SC => 26,
        Signature::SCLZ => 31,
        Signature::SIG => 68,
    }
}

/// `Sig:`, as the signed framing writes it.
pub open spec fn signed_mark() -> Seq<u8> {
    seq![0x53u8, 0x69u8, 0x67u8, 0x3au8]
}

/// The header that is written before the stream of a buffer framed as `sig`.
/// The container headers are written as zero bytes: stamping a tag on them
/// is left to the caller.
pub open spec fn header_of(sig: Signature) -> Seq<u8> {
    match sig {
        Signature::NONE => Seq::<u8>::empty(),
        Signature::LZMA => Seq::<u8>::empty(),
        Signature::SC => zeros(26),
        Signature::SCLZ => zeros(31),
        Signature::SIG => signed_mark() + zeros(64),
    }
}

/// The size field of a stream body: its bytes 5 to 8, least significant
/// byte first.
pub open spec fn size_field(body: Seq<u8>) -> int
    recommends
        body.len() >= 9,
{
    le_u32(body.subrange(5, 9))
}

/// The byte that fills the upper half of the engine's size field: `FF` where
/// the size is not recorded, `00` where it is.
pub open spec fn size_fill(body: Seq<u8>) -> u8
    recommends
        body.len() >= 9,
{
    if size_field(body) == UNKNOWN_SIZE {
        0xffu8
    } else {
        0x00u8
    }
}

/// A stream as the engine writes it, with four bytes at offset 5 taken out:
/// the framings keep four size bytes where the engine has eight.
pub open spec fn short_header(stream: Seq<u8>) -> Seq<u8>
    recommends
        stream.len() >= 9,
{
    without_range(stream, 5, 9)
}

/// A stream body as the engine reads it: four fill bytes are put in behind
/// the size field, which makes eight size bytes of four.
pub open spec fn full_header(body: Seq<u8>) -> Seq<u8>
    recommends
        body.len() >= 9,
{
    body.subrange(0, 9) + Seq::new(4, |i: int| size_fill(body)) + body.subrange(
        9,
        body.len() as int,
    )
}

/// The buffer that frames the engine's `stream` as `sig`, for the three
/// framings that hold a stream.
pub open spec fn framed_stream(sig: Signature, stream: Seq<u8>) -> Seq<u8>
    recommends
        stream.len() >= 9,
{
    header_of(sig) + short_header(stream)
}

/// The buffer that frames `coded`, the dictionary-coded form of a payload of
/// `raw_len` bytes, as an extended container.
pub open spec fn framed_dictionary(raw_len: u64, coded: Seq<u8>) -> Seq<u8> {
    header_of(Signature::SCLZ) + be_bytes(raw_len) + coded
}

/// Widens the four-byte size field of a stream body to the eight bytes that
/// the stream engine reads. A body shorter than nine bytes is left as it is.
pub fn expand_size_field(body: &mut Vec<u8>) -> (r: Result<(), ScError>)
    ensures
        old(body).len() < 9 ==> r == Err::<(), ScError>(ScError::MalformedInput),
        old(body).len() < 9 ==> final(body)@ == old(body)@,
        old(body).len() >= 9 ==> r is Ok,
        old(body).len() >= 9 ==> final(body)@ == full_header(old(body)@),
{
    if body.len() < SHORT_HEADER_LEN {
        return Err(ScError::MalformedInput);
    }
    let fill: u8 = if read_le_u32(body.as_slice(), 5) == UNKNOWN_SIZE {
        0xff
    } else {
        0x00
    };
    let ghost before = body@;
    body.push(fill);
    body.push(fill);
    body.push(fill);
    body.push(fill);
    rotate_right(body, SHORT_HEADER_LEN, 4);
    assert(body@ =~= full_header(before));
    Ok(())
}

/// Narrows the eight-byte size field of an engine stream to four bytes, by
/// taking out the four bytes at offset 5. A stream shorter than nine bytes is
/// left as it is.
pub fn shorten_size_field(stream: &mut Vec<u8>) -> (r: Result<(), ScError>)
    ensures
        old(stream).len() < 9 ==> r == Err::<(), ScError>(ScError::MalformedInput),
        old(stream).len() < 9 ==> final(stream)@ == old(stream)@,
        old(stream).len() >= 9 ==> r is Ok,
        old(stream).len() >= 9 ==> final(stream)@ == short_header(old(stream)@),
{
    if stream.len() < SHORT_HEADER_LEN {
        return Err(ScError::MalformedInput);
    }
    remove_range(stream, 5, SHORT_HEADER_LEN);
    Ok(())
}

} // verus!
