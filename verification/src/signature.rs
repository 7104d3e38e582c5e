use vstd::prelude::*;
use vstd::slice::slice_subrange;
use vstd::utf8::valid_utf8;
use crate::error::ScError;
use crate::text::{is_text, spells, spells_tag};

verus! {

/// The framing that wraps a compressed payload.
#[allow(non_camel_case_types)]
#[derive(Clone, Copy, Debug, PartialEq, Eq, Structural)]
pub enum Signature {
    /// No framing: the buffer is the payload itself.
    NONE,
    /// A bare stream: the buffer starts with the bytes `5D 00 00`.
    LZMA,
    /// A 26-byte header that starts with `SC`, then a bare stream.
    SC,
    /// A header that starts with `SC` and holds `SCLZ` at offset 26, then a
    /// four-byte size and a dictionary-coded stream.
    SCLZ,
    /// A 68-byte header that starts with `Sig:`, then a bare stream.
    SIG,
}

/// The three bytes that open a bare stream.
pub open spec fn stream_magic() -> Seq<u8> {
    seq![0x5du8, 0x00u8, 0x00u8]
}

/// `sc`, the tag of the two container framings.
pub open spec fn container_tag() -> Seq<u8> {
    seq![0x73u8, 0x63u8]
}

/// `sclz`, which the extended container holds at offset 26.
pub open spec fn extended_tag() -> Seq<u8> {
    seq![0x73u8, 0x63u8, 0x6cu8, 0x7au8]
}

/// `sig:`, the tag of the signed framing.
pub open spec fn signed_tag() -> Seq<u8> {
    seq![0x73u8, 0x69u8, 0x67u8, 0x3au8]
}

/// The framing of `buf`, or why it has none.
///
/// The checks run in a fixed order, and each one first asks for the bytes it
/// reads: the stream magic, then the container tag (refined by the extended
/// tag when the buffer is longer than 30 bytes), then the signed tag. Tags are
/// text: the bytes compared with a tag have to be well-formed UTF-8, and
/// ASCII case is disregarded.
pub open spec fn classify_spec(buf: Seq<u8>) -> Result<Signature, ScError> {
    if buf.len() < 3 {
        Err(ScError::MalformedInput)
    } else if buf.subrange(0, 3) == stream_magic() {
        Ok(Signature::LZMA)
    } else if !valid_utf8(buf.subrange(0, 2)) {
        Err(ScError::Utf8DecodeFailure)
    } else if spells(buf.subrange(0, 2), container_tag()) {
        if buf.len() <= 30 {
            Ok(Signature::SC)
        } else if !valid_utf8(buf.subrange(26, 30)) {
            Err(ScError::Utf8DecodeFailure)
        } else if spells(buf.subrange(26, 30), extended_tag()) {
            Ok(Signature::SCLZ)
        } else {
            Ok(Signature::SC)
        }
    } else if buf.len() < 4 {
        Err(ScError::MalformedInput)
    } else if !valid_utf8(buf.subrange(0, 4)) {
        Err(ScError::Utf8DecodeFailure)
    } else if spells(buf.subrange(0, 4), signed_tag()) {
        Ok(Signature::SIG)
    } else {
        Ok(Signature::NONE)
    }
}

/// Whether `chunk` is text that spells `tag`: `Err` when it is no text.
fn reads_as(chunk: &[u8], tag: &[u8]) -> (r: Result<bool, ScError>)
    ensures
        r == if valid_utf8(chunk@) {
            Ok::<bool, ScError>(spells(chunk@, tag@))
        } else {
            Err::<bool, ScError>(ScError::Utf8DecodeFailure)
        },
{
    if !is_text(chunk) {
        return Err(ScError::Utf8DecodeFailure);
    }
    Ok(spells_tag(chunk, tag))
}

/// Classifies `buf` by its leading bytes.
pub fn classify(buf: &[u8]) -> (r: Result<Signature, ScError>)
    ensures
        r == classify_spec(buf@),
{
    if buf.len() < 3 {
        return Err(ScError::MalformedInput);
    }
    if buf[0] == 0x5d && buf[1] == 0x00 && buf[2] == 0x00 {
        assert(buf@.subrange(0, 3) =~= stream_magic());
        return Ok(Signature::LZMA);
    }
    assert(buf@.subrange(0, 3) != stream_magic()) by {
        assert(buf@.subrange(0, 3)[0] == buf@[0]);
        assert(buf@.subrange(0, 3)[1] == buf@[1]);
        assert(buf@.subrange(0, 3)[2] == buf@[2]);
    }
    let sc: [u8; 2] = [0x73, 0x63];
    let sclz: [u8; 4] = [0x73, 0x63, 0x6c, 0x7a];
    let sig: [u8; 4] = [0x73, 0x69, 0x67, 0x3a];
    assert(sc@ =~= container_tag());
    assert(sclz@ =~= extended_tag());
    assert(sig@ =~= signed_tag());
    match reads_as(slice_subrange(buf, 0, 2), sc.as_slice()) {
        Err(e) => {
            return Err(e);
        },
        Ok(true) => {
            if buf.len() <= 30 {
                return Ok(Signature::SC);
            }
            return match reads_as(slice_subrange(buf, 26, 30), sclz.as_slice()) {
                Err(e) => Err(e),
                Ok(true) => Ok(Signature::SCLZ),
                Ok(false) => Ok(Signature::SC),
            };
        },
        Ok(false) => {},
    }
    if buf.len() < 4 {
        return Err(ScError::MalformedInput);
    }
    match reads_as(slice_subrange(buf, 0, 4), sig.as_slice()) {
        Err(e) => Err(e),
        Ok(true) => Ok(Signature::SIG),
        Ok(false) => Ok(Signature::NONE),
    }
}

} // verus!
