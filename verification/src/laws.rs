use vstd::prelude::*;
use crate::codec::{
    compressed, decompressed, engine_input, stream_body, FramedView, UnframedView,
};
use crate::error::ScError;
use crate::framing::{
    framed_dictionary, framed_stream, full_header, header_len, header_of, short_header,
    signed_mark, size_field, UNKNOWN_SIZE,
};
use crate::hex::hex_text;
use crate::signature::{
    classify_spec, container_tag, extended_tag, signed_tag, stream_magic, Signature,
};
use crate::text::{ascii_lower, lemma_ascii_is_text, spells};

verus! {

/// The eight size bytes of an engine stream all say "size not recorded".
pub open spec fn size_unrecorded(stream: Seq<u8>) -> bool {
    &&& stream.len() >= 13
    &&& forall|i: int| 5 <= i < 13 ==> stream[i] == 0xffu8
}

/// The eight size bytes of an engine stream record the size zero.
pub open spec fn size_zero(stream: Seq<u8>) -> bool {
    &&& stream.len() >= 13
    &&& forall|i: int| 5 <= i < 13 ==> stream[i] == 0x00u8
}

/// The header that is written for a framing has the length that is skipped
/// where a buffer of that framing is read.
pub proof fn lemma_header_len(sig: Signature)
    ensures
        header_of(sig).len() == header_len(sig),
{
}

/// The stream magic, and nothing else, reads `5d0000` in hexadecimal.
pub proof fn lemma_magic_in_hex(bytes: Seq<u8>)
    ensures
        hex_text(bytes) == seq!['5', 'd', '0', '0', '0', '0'] <==> bytes == stream_magic(),
{
    let text = seq!['5', 'd', '0', '0', '0', '0'];
    if bytes == stream_magic() {
        assert(hex_text(bytes) =~= text);
    }
    if hex_text(bytes) == text {
        assert(hex_text(bytes).len() == 2 * bytes.len());
        assert(text.len() == 6);
        assert(hex_text(bytes)[0] == '5' && hex_text(bytes)[1] == 'd');
        assert(hex_text(bytes)[2] == '0' && hex_text(bytes)[3] == '0');
        assert(hex_text(bytes)[4] == '0' && hex_text(bytes)[5] == '0');
        assert(bytes[0] as int / 16 == 5 && bytes[0] as int % 16 == 13);
        assert(bytes[1] as int / 16 == 0 && bytes[1] as int % 16 == 0);
        assert(bytes[2] as int / 16 == 0 && bytes[2] as int % 16 == 0);
        assert(bytes =~= stream_magic());
    }
}

/// Bytes that spell a tag are text, so a buffer is classified by its tag
/// alone: by the stream magic in its first three bytes, else by the
/// container tag in its first two (and, in a buffer of more than 30 bytes,
/// the extended tag at offset 26), else by the signed tag in its first four.
pub proof fn lemma_classified_by_tag(buf: Seq<u8>)
    ensures
        buf.len() >= 3 && buf.subrange(0, 3) == stream_magic() ==> classify_spec(buf) == Ok::<
            Signature,
            ScError,
        >(Signature::LZMA),
        buf.len() > 30 && spells(buf.subrange(0, 2), container_tag()) && spells(
            buf.subrange(26, 30),
            extended_tag(),
        ) ==> classify_spec(buf) == Ok::<Signature, ScError>(Signature::SCLZ),
        buf.len() >= 4 && spells(buf.subrange(0, 4), signed_tag()) ==> classify_spec(buf) == Ok::<
            Signature,
            ScError,
        >(Signature::SIG),
{
    if buf.len() > 30 && spells(buf.subrange(0, 2), container_tag()) && spells(
        buf.subrange(26, 30),
        extended_tag(),
    ) {
        let head = buf.subrange(0, 2);
        assert(ascii_lower(head[0]) == container_tag()[0]);
        assert(ascii_lower(head[1]) == container_tag()[1]);
        lemma_ascii_is_text(head);
        assert(buf.subrange(0, 3)[0] == head[0]);
        let mark = buf.subrange(26, 30);
        assert(ascii_lower(mark[0]) == extended_tag()[0]);
        assert(ascii_lower(mark[1]) == extended_tag()[1]);
        assert(ascii_lower(mark[2]) == extended_tag()[2]);
        assert(ascii_lower(mark[3]) == extended_tag()[3]);
        lemma_ascii_is_text(mark);
    }
    if buf.len() >= 4 && spells(buf.subrange(0, 4), signed_tag()) {
        let head = buf.subrange(0, 4);
        assert(ascii_lower(head[0]) == signed_tag()[0]);
        assert(ascii_lower(head[1]) == signed_tag()[1]);
        assert(ascii_lower(head[2]) == signed_tag()[2]);
        assert(ascii_lower(head[3]) == signed_tag()[3]);
        lemma_ascii_is_text(head);
        assert(buf.subrange(0, 3)[0] == head[0]);
        let two = buf.subrange(0, 2);
        assert(two[0] == head[0] && two[1] == head[1]);
        lemma_ascii_is_text(two);
        assert(ascii_lower(two[1]) != container_tag()[1]);
    }
}

/// A buffer of fewer than three bytes has no framing to read: it is
/// malformed.
pub proof fn lemma_short_buffer_is_malformed(buf: Seq<u8>)
    requires
        buf.len() < 3,
    ensures
        classify_spec(buf) == Err::<Signature, ScError>(ScError::MalformedInput),
{
}

/// A buffer of at most 30 bytes is never an extended container, and one that
/// starts with the container tag is a plain container.
pub proof fn lemma_extended_container_needs_31_bytes(buf: Seq<u8>)
    requires
        buf.len() <= 30,
    ensures
        classify_spec(buf) != Ok::<Signature, ScError>(Signature::SCLZ),
        buf.len() >= 3 && spells(buf.subrange(0, 2), container_tag()) ==> classify_spec(buf)
            == Ok::<Signature, ScError>(Signature::SC),
{
    if buf.len() >= 3 && spells(buf.subrange(0, 2), container_tag()) {
        let head = buf.subrange(0, 2);
        assert(ascii_lower(head[0]) == container_tag()[0]);
        assert(ascii_lower(head[1]) == container_tag()[1]);
        lemma_ascii_is_text(head);
        assert(buf.subrange(0, 3)[0] == head[0]);
    }
}

/// Without framing nothing is done to a buffer, in either direction: framing
/// it as `NONE` gives the buffer, and a buffer that is classified as `NONE`
/// is its own payload. So the one undoes the other.
pub proof fn lemma_unframed_is_unchanged(buf: Seq<u8>, stream: Seq<u8>, payload: Seq<u8>)
    ensures
        compressed(buf, Signature::NONE, stream) == Ok::<FramedView, ScError>(
            FramedView::Done(buf),
        ),
        classify_spec(buf) == Ok::<Signature, ScError>(Signature::NONE) ==> decompressed(
            buf,
            payload,
        ) == Ok::<UnframedView, ScError>(UnframedView::Done(buf)),
{
}

/// Where the size field of a stream body says "size not recorded", the
/// payload of the stream engine is handed back whatever its length.
pub proof fn lemma_unrecorded_size_admits_any_payload(buf: Seq<u8>, payload: Seq<u8>)
    requires
        stream_body(buf) is Some,
        size_field(stream_body(buf)->0) == UNKNOWN_SIZE,
    ensures
        decompressed(buf, payload) == Ok::<UnframedView, ScError>(UnframedView::Done(payload)),
{
}

/// Where the size field of a stream body records a size, the payload of the
/// stream engine is handed back if and only if it has that length.
pub proof fn lemma_recorded_size_is_payload_length(buf: Seq<u8>, payload: Seq<u8>)
    requires
        stream_body(buf) is Some,
        size_field(stream_body(buf)->0) != UNKNOWN_SIZE,
    ensures
        payload.len() == size_field(stream_body(buf)->0) ==> decompressed(buf, payload) == Ok::<
            UnframedView,
            ScError,
        >(UnframedView::Done(payload)),
        payload.len() != size_field(stream_body(buf)->0) ==> decompressed(buf, payload) == Err::<
            UnframedView,
            ScError,
        >(ScError::EngineFailure),
{
}

/// Narrowing the size field of an engine stream and widening it again gives
/// the stream back where its eight size bytes are all `FF` or all `00`.
pub proof fn lemma_size_field_survives(stream: Seq<u8>)
    requires
        size_unrecorded(stream) || size_zero(stream),
    ensures
        short_header(stream).len() == stream.len() - 4,
        size_unrecorded(stream) ==> size_field(short_header(stream)) == UNKNOWN_SIZE,
        size_zero(stream) ==> size_field(short_header(stream)) == 0,
        full_header(short_header(stream)) == stream,
{
    let short = short_header(stream);
    let field = short.subrange(5, 9);
    assert(field[0] == stream[9]);
    assert(field[1] == stream[10]);
    assert(field[2] == stream[11]);
    assert(field[3] == stream[12]);
    assert(full_header(short) =~= stream);
}

/// An engine stream with its whole header, framed as `SIG`, is classified as
/// `SIG`; framed as `LZMA` it is classified as `LZMA` where it starts with
/// the stream magic. Its stream body is the stream with the narrow size
/// field.
pub proof fn lemma_framed_stream_is_classified(sig: Signature, stream: Seq<u8>)
    requires
        stream.len() >= 13,
        sig is SIG || (sig is LZMA && stream.subrange(0, 3) == stream_magic()),
    ensures
        classify_spec(framed_stream(sig, stream)) == Ok::<Signature, ScError>(sig),
        stream_body(framed_stream(sig, stream)) == Some(short_header(stream)),
{
    let framed = framed_stream(sig, stream);
    let short = short_header(stream);
    if sig is SIG {
        assert(framed.len() == 68 + short.len());
        assert(framed.subrange(0, 4) =~= signed_mark());
        assert(framed.subrange(0, 3)[0] == 0x53u8);
        assert(framed.subrange(0, 2) =~= seq![0x53u8, 0x69u8]);
        lemma_ascii_is_text(framed.subrange(0, 2));
        lemma_ascii_is_text(framed.subrange(0, 4));
        assert(ascii_lower(framed.subrange(0, 2)[1]) != container_tag()[1]);
        assert(ascii_lower(framed.subrange(0, 4)[0]) == signed_tag()[0]);
        assert(ascii_lower(framed.subrange(0, 4)[1]) == signed_tag()[1]);
        assert(ascii_lower(framed.subrange(0, 4)[2]) == signed_tag()[2]);
        assert(ascii_lower(framed.subrange(0, 4)[3]) == signed_tag()[3]);
        assert(framed.subrange(68, framed.len() as int) =~= short);
    } else {
        assert(framed =~= short);
        assert(framed.subrange(0, 3) =~= stream.subrange(0, 3));
        assert(framed.subrange(0, framed.len() as int) =~= short);
    }
}

/// Framing and then unframing gives the payload back, for the framings
/// `LZMA` and `SIG`: where `stream` is what the stream engine made of the
/// payload, unframing hands that very stream to the engine, and hands back
/// the payload where the engine decodes its stream to the payload.
///
/// This holds of the streams whose eight size bytes are all `FF` (or all
/// `00`, for an empty payload), and, for `LZMA`, that start with the stream
/// magic: of other streams the frame is read otherwise than it was written.
pub proof fn lemma_round_trip(payload: Seq<u8>, sig: Signature, stream: Seq<u8>)
    requires
        sig is LZMA || sig is SIG,
        sig is LZMA ==> stream.subrange(0, 3) == stream_magic(),
        size_unrecorded(stream) || (size_zero(stream) && payload.len() == 0),
    ensures
        compressed(payload, sig, stream) == Ok::<FramedView, ScError>(
            FramedView::Done(framed_stream(sig, stream)),
        ),
        engine_input(framed_stream(sig, stream)) == stream,
        decompressed(framed_stream(sig, stream), payload) == Ok::<UnframedView, ScError>(
            UnframedView::Done(payload),
        ),
{
    lemma_framed_stream_is_classified(sig, stream);
    lemma_size_field_survives(stream);
}

/// The two container framings are written with a header of zero bytes, so
/// what `compress` frames as a container reads as a buffer without framing
/// until its tag has been stamped on it: unframing hands back the frame, not
/// the payload.
pub proof fn lemma_untagged_container_is_unframed(
    stream: Seq<u8>,
    raw_len: u64,
    coded: Seq<u8>,
    payload: Seq<u8>,
)
    requires
        stream.len() >= 9,
    ensures
        decompressed(framed_stream(Signature::SC, stream), payload) == Ok::<UnframedView, ScError>(
            UnframedView::Done(framed_stream(Signature::SC, stream)),
        ),
        decompressed(framed_dictionary(raw_len, coded), payload) == Ok::<UnframedView, ScError>(
            UnframedView::Done(framed_dictionary(raw_len, coded)),
        ),
{
    let a = framed_stream(Signature::SC, stream);
    lemma_zero_header_is_unframed(a);
    let b = framed_dictionary(raw_len, coded);
    lemma_zero_header_is_unframed(b);
}

/// A buffer that starts with four zero bytes has no framing.
proof fn lemma_zero_header_is_unframed(buf: Seq<u8>)
    requires
        buf.len() >= 4,
        forall|i: int| 0 <= i < 4 ==> buf[i] == 0u8,
    ensures
        classify_spec(buf) == Ok::<Signature, ScError>(Signature::NONE),
{
    assert(buf.subrange(0, 3)[0] == buf[0]);
    lemma_ascii_is_text(buf.subrange(0, 2));
    lemma_ascii_is_text(buf.subrange(0, 4));
    assert(ascii_lower(buf.subrange(0, 2)[0]) != container_tag()[0]);
    assert(ascii_lower(buf.subrange(0, 4)[0]) != signed_tag()[0]);
}

} // verus!
