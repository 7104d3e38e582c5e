use vstd::prelude::*;
use vstd::slice::slice_subrange;
use crate::bytes::{le_u32, push_all, push_be_u64, push_zeros, read_le_u32};
use crate::engine::{lzma_decoded, lzma_encoded};
use crate::error::ScError;
use crate::framing::{
    expand_size_field, framed_dictionary, framed_stream, full_header, header_len, short_header,
    shorten_size_field, signed_mark, size_field, SHORT_HEADER_LEN, UNKNOWN_SIZE,
};
use crate::signature::{classify, classify_spec, Signature};

verus! {

/// The level at which the stream engine encodes.
pub const STREAM_PRESET: u32 = 6;

/// A buffer, to be framed around its encoded form or freed of its framing.
pub struct ScCompression {
    buffer: Vec<u8>,
}

impl View for ScCompression {
    type V = Seq<u8>;

    closed spec fn view(&self) -> Seq<u8> {
        self.buffer@
    }
}

/// What `compress` hands back: the framed bytes, or work for the dictionary
/// engine, which this library does not run itself.
#[derive(Debug, PartialEq, Eq)]
pub enum Framed {
    /// The framed bytes.
    Done(Vec<u8>),
    /// The dictionary engine is to encode these bytes; `compress_sclz` frames
    /// what it makes of them.
    Encode(Vec<u8>),
}

/// A `Framed` with its bytes as sequences.
pub ghost enum FramedView {
    Done(Seq<u8>),
    Encode(Seq<u8>),
}

impl View for Framed {
    type V = FramedView;

    open spec fn view(&self) -> FramedView {
        match *self {
            Framed::Done(bytes) => FramedView::Done(bytes@),
            Framed::Encode(raw) => FramedView::Encode(raw@),
        }
    }
}

/// What `decompress` hands back: the payload, or work for the dictionary
/// engine, which this library does not run itself.
#[derive(Debug, PartialEq, Eq)]
pub enum Unframed {
    /// The payload.
    Done(Vec<u8>),
    /// The dictionary engine is to decode `stream`, which holds a payload of
    /// `expected_len` bytes; `dictionary_payload` takes what it makes of it.
    Decode { stream: Vec<u8>, expected_len: u32 },
}

/// An `Unframed` with its bytes as sequences.
pub ghost enum UnframedView {
    Done(Seq<u8>),
    Decode { stream: Seq<u8>, expected_len: u32 },
}

impl View for Unframed {
    type V = UnframedView;

    open spec fn view(&self) -> UnframedView {
        match *self {
            Unframed::Done(payload) => UnframedView::Done(payload@),
            Unframed::Decode { stream, expected_len } => UnframedView::Decode {
                stream: stream@,
                expected_len,
            },
        }
    }
}

/// A result with what it holds on success taken by its view.
pub open spec fn outcome<T: View>(r: Result<T, ScError>) -> Result<T::V, ScError> {
    match r {
        Ok(value) => Ok(value@),
        Err(e) => Err(e),
    }
}

/// The framings that hold a stream of the stream engine.
pub open spec fn holds_stream(sig: Signature) -> bool {
    sig is LZMA || sig is SC || sig is SIG
}

/// What `compress` makes of `buf` for the framing `sig`, where `stream` is
/// what the stream engine made of `buf`.
pub open spec fn compressed(buf: Seq<u8>, sig: Signature, stream: Seq<u8>) -> Result<
    FramedView,
    ScError,
> {
    match sig {
        Signature::NONE => Ok(FramedView::Done(buf)),
        Signature::SCLZ => Ok(FramedView::Encode(buf)),
        _ => if stream.len() < 9 {
            Err(ScError::MalformedInput)
        } else {
            Ok(FramedView::Done(framed_stream(sig, stream)))
        },
    }
}

/// The stream body of `buf`, where it holds one: `buf` is classified as one
/// of the three stream framings, and what stands behind the header of that
/// framing is at least the nine bytes of a short stream header.
pub open spec fn stream_body(buf: Seq<u8>) -> Option<Seq<u8>> {
    match classify_spec(buf) {
        Ok(sig) => if holds_stream(sig) && buf.len() >= header_len(sig) + 9 {
            Some(buf.subrange(header_len(sig) as int, buf.len() as int))
        } else {
            None
        },
        Err(_) => None,
    }
}

/// What `decompress` hands to the stream engine: the stream body of `buf`
/// with its size field widened; nothing where `buf` holds no stream body.
pub open spec fn engine_input(buf: Seq<u8>) -> Seq<u8> {
    match stream_body(buf) {
        Some(body) => full_header(body),
        None => Seq::<u8>::empty(),
    }
}

/// Whether a payload of the stream engine agrees with the size field `field`:
/// a recorded size is the length of the payload, an unrecorded one admits
/// any length.
pub open spec fn size_agrees(field: int, payload: Seq<u8>) -> bool {
    field == UNKNOWN_SIZE || payload.len() == field
}

/// What `decompress` makes of `buf`, where `payload` is what the stream
/// engine decoded its input to.
pub open spec fn decompressed(buf: Seq<u8>, payload: Seq<u8>) -> Result<UnframedView, ScError> {
    match classify_spec(buf) {
        Err(e) => Err(e),
        Ok(Signature::NONE) => Ok(UnframedView::Done(buf)),
        Ok(Signature::SCLZ) => if buf.len() < 35 {
            Err(ScError::MalformedInput)
        } else {
            Ok(
                UnframedView::Decode {
                    stream: buf.subrange(35, buf.len() as int),
                    expected_len: le_u32(buf.subrange(31, 35)) as u32,
                },
            )
        },
        Ok(_) => match stream_body(buf) {
            None => Err(ScError::MalformedInput),
            Some(body) => if size_agrees(size_field(body), payload) {
                Ok(UnframedView::Done(payload))
            } else {
                Err(ScError::EngineFailure)
            },
        },
    }
}

/// The buffer that `decompress` leaves behind: the input of the stream
/// engine where `buf` holds a stream body, else `buf` itself.
pub open spec fn buffer_after(buf: Seq<u8>) -> Seq<u8> {
    if stream_body(buf) is Some {
        engine_input(buf)
    } else {
        buf
    }
}

/// Takes a buffer into a codec.
pub fn new_from_buffer(buffer: Vec<u8>) -> (r: ScCompression)
    ensures
        r@ == buffer@,
{
    ScCompression { buffer }
}

/// Holds a payload of the stream engine against the size field that its
/// stream was framed with: a payload that disagrees with a recorded size
/// counts as a failure of the engine.
pub fn check_payload(field: u32, payload: Vec<u8>) -> (r: Result<Vec<u8>, ScError>)
    ensures
        size_agrees(field as int, payload@) ==> r == Ok::<Vec<u8>, ScError>(payload),
        !size_agrees(field as int, payload@) ==> r == Err::<Vec<u8>, ScError>(
            ScError::EngineFailure,
        ),
{
    if field == UNKNOWN_SIZE {
        return Ok(payload);
    }
    let len: usize = payload.len();
    if len <= u32::MAX as usize && len as u32 == field {
        Ok(payload)
    } else {
        Err(ScError::EngineFailure)
    }
}

/// Takes what the dictionary engine decoded a stream to: the payload, unless
/// the engine reported a failure. `success` is the status that it reported.
pub fn dictionary_payload(success: bool, payload: Vec<u8>) -> (r: Result<Vec<u8>, ScError>)
    ensures
        success ==> r == Ok::<Vec<u8>, ScError>(payload),
        !success ==> r == Err::<Vec<u8>, ScError>(ScError::EngineFailure),
{
    if success {
        Ok(payload)
    } else {
        Err(ScError::EngineFailure)
    }
}

/// Framed bytes, or the error that stood in their way.
fn framed(r: Result<Vec<u8>, ScError>) -> (f: Result<Framed, ScError>)
    ensures
        r is Ok ==> f is Ok && f->Ok_0@ == FramedView::Done(r->Ok_0@),
        r is Err ==> f == Err::<Framed, ScError>(r->Err_0),
{
    match r {
        Ok(bytes) => Ok(Framed::Done(bytes)),
        Err(e) => Err(e),
    }
}

/// A payload, or the error that stood in its way.
fn unframed(r: Result<Vec<u8>, ScError>) -> (u: Result<Unframed, ScError>)
    ensures
        r is Ok ==> u is Ok && u->Ok_0@ == UnframedView::Done(r->Ok_0@),
        r is Err ==> u == Err::<Unframed, ScError>(r->Err_0),
{
    match r {
        Ok(payload) => Ok(Unframed::Done(payload)),
        Err(e) => Err(e),
    }
}

impl ScCompression {
    /// The bytes that the codec holds.
    pub fn buffer(&self) -> (r: &Vec<u8>)
        ensures
            r@ == self@,
    {
        &self.buffer
    }

    /// The framing of the buffer.
    pub fn read_signature(&self) -> (r: Result<Signature, ScError>)
        ensures
            r == classify_spec(self@),
    {
        classify(self.buffer.as_slice())
    }

    /// A copy of the buffer.
    fn copy(&self) -> (r: Vec<u8>)
        ensures
            r@ == self@,
    {
        let mut out: Vec<u8> = Vec::new();
        push_all(&mut out, self.buffer.as_slice());
        out
    }

    /// Frames the encoded form of the buffer as `sig`.
    ///
    /// Without framing the buffer itself is handed back. For the extended
    /// container the buffer is handed out to be encoded by the dictionary
    /// engine. For the three stream framings the stream engine encodes the
    /// buffer at `STREAM_PRESET`, and its stream is framed; this fails where
    /// the engine fails, and where its stream is shorter than a stream
    /// header. The buffer stays as it is.
    pub fn compress(&mut self, sig: Signature) -> (r: Result<Framed, ScError>)
        ensures
            final(self)@ == old(self)@,
            outcome(r) == compressed(old(self)@, sig, lzma_encoded(old(self)@, STREAM_PRESET))
                || (holds_stream(sig) && r == Err::<Framed, ScError>(ScError::EngineFailure)),
    {
        match sig {
            Signature::NONE | Signature::SCLZ => self.frame(sig, Vec::new()),
            Signature::LZMA | Signature::SC | Signature::SIG => {
                match lzma::compress(self.buffer.as_slice(), STREAM_PRESET) {
                    Ok(stream) => self.frame(sig, stream),
                    Err(_) => Err(ScError::EngineFailure),
                }
            },
        }
    }

    /// Frames the buffer as `sig`, where `stream` is what the stream engine
    /// made of the buffer. The two framings that hold no such stream leave
    /// `stream` aside.
    pub fn frame(&self, sig: Signature, stream: Vec<u8>) -> (r: Result<Framed, ScError>)
        ensures
            outcome(r) == compressed(self@, sig, stream@),
    {
        match sig {
            Signature::NONE => Ok(Framed::Done(self.copy())),
            Signature::LZMA => framed(Self::compress_lzma(stream)),
            Signature::SC => framed(Self::compress_sc(stream)),
            Signature::SCLZ => Ok(Framed::Encode(self.copy())),
            Signature::SIG => framed(Self::compress_sig(stream)),
        }
    }

    /// The engine's `stream` with its size field narrowed to four bytes.
    fn compress_lzma(stream: Vec<u8>) -> (r: Result<Vec<u8>, ScError>)
        ensures
            stream@.len() < 9 ==> r == Err::<Vec<u8>, ScError>(ScError::MalformedInput),
            stream@.len() >= 9 ==> r is Ok && r->Ok_0@ == short_header(stream@),
    {
        let mut short: Vec<u8> = stream;
        match shorten_size_field(&mut short) {
            Ok(()) => Ok(short),
            Err(e) => Err(e),
        }
    }

    /// The short form of the engine's `stream` behind a container header of
    /// 26 zero bytes.
    fn compress_sc(stream: Vec<u8>) -> (r: Result<Vec<u8>, ScError>)
        ensures
            stream@.len() < 9 ==> r == Err::<Vec<u8>, ScError>(ScError::MalformedInput),
            stream@.len() >= 9 ==> r is Ok && r->Ok_0@ == framed_stream(Signature::SC, stream@),
    {
        let short: Vec<u8> = match Self::compress_lzma(stream) {
            Ok(short) => short,
            Err(e) => {
                return Err(e);
            },
        };
        let mut framed: Vec<u8> = Vec::new();
        push_zeros(&mut framed, 26);
        push_all(&mut framed, short.as_slice());
        assert(framed@ =~= framed_stream(Signature::SC, stream@));
        Ok(framed)
    }

    /// The short form of the engine's `stream` behind a signed header: the
    /// mark `Sig:`, then 64 zero bytes.
    fn compress_sig(stream: Vec<u8>) -> (r: Result<Vec<u8>, ScError>)
        ensures
            stream@.len() < 9 ==> r == Err::<Vec<u8>, ScError>(ScError::MalformedInput),
            stream@.len() >= 9 ==> r is Ok && r->Ok_0@ == framed_stream(Signature::SIG, stream@),
    {
        let short: Vec<u8> = match Self::compress_lzma(stream) {
            Ok(short) => short,
            Err(e) => {
                return Err(e);
            },
        };
        let mut framed: Vec<u8> = Vec::new();
        framed.push(0x53);
        framed.push(0x69);
        framed.push(0x67);
        framed.push(0x3a);
        assert(framed@ =~= signed_mark());
        push_zeros(&mut framed, 64);
        push_all(&mut framed, short.as_slice());
        assert(framed@ =~= framed_stream(Signature::SIG, stream@));
        Ok(framed)
    }

    /// Frames `coded`, which the dictionary engine made of the buffer, as an
    /// extended container: a header of 31 zero bytes, the length of the
    /// buffer in eight bytes, most significant first, then `coded`.
    /// `success` is the status that the engine reported: where it reported a
    /// failure, nothing is framed.
    pub fn compress_sclz(&self, success: bool, coded: Vec<u8>) -> (r: Result<Vec<u8>, ScError>)
        ensures
            success ==> r is Ok && r->Ok_0@ == framed_dictionary(self@.len() as u64, coded@),
            !success ==> r == Err::<Vec<u8>, ScError>(ScError::EngineFailure),
    {
        if !success {
            return Err(ScError::EngineFailure);
        }
        let mut framed: Vec<u8> = Vec::new();
        push_zeros(&mut framed, 31);
        push_be_u64(&mut framed, self.buffer.len() as u64);
        push_all(&mut framed, coded.as_slice());
        assert(framed@ =~= framed_dictionary(self@.len() as u64, coded@));
        Ok(framed)
    }

    /// Frees the payload of its framing.
    ///
    /// A buffer without framing is handed back as it is. The stream of an
    /// extended container is handed out with the size that it was framed
    /// with, to be decoded by the dictionary engine. The stream body of the
    /// three stream framings has its size field widened, in the buffer
    /// itself, and is decoded by the stream engine; the payload is handed
    /// back where it agrees with the size field, and this fails where the
    /// engine fails. A buffer that cannot be classified, or is too short for
    /// its framing, is left as it is.
    pub fn decompress(&mut self) -> (r: Result<Unframed, ScError>)
        ensures
            final(self)@ == buffer_after(old(self)@),
            outcome(r) == decompressed(old(self)@, lzma_decoded(engine_input(old(self)@)))
                || (stream_body(old(self)@) is Some
                && r == Err::<Unframed, ScError>(ScError::EngineFailure)),
    {
        let sig: Signature = match self.read_signature() {
            Ok(sig) => sig,
            Err(e) => {
                return Err(e);
            },
        };
        match sig {
            Signature::NONE => Ok(Unframed::Done(self.copy())),
            Signature::LZMA => {
                assert(self@.subrange(0, self@.len() as int) =~= self@);
                unframed(self.decompress_lzma())
            },
            Signature::SC => unframed(self.decompress_sc()),
            Signature::SCLZ => self.decompress_sclz(),
            Signature::SIG => unframed(self.decompress_sig()),
        }
    }

    /// Decodes the buffer as a stream body: widens its size field, hands it
    /// to the stream engine and holds the payload against the size field.
    fn decompress_lzma(&mut self) -> (r: Result<Vec<u8>, ScError>)
        ensures
            old(self)@.len() < 9 ==> final(self)@ == old(self)@,
            old(self)@.len() < 9 ==> r == Err::<Vec<u8>, ScError>(ScError::MalformedInput),
            old(self)@.len() >= 9 ==> final(self)@ == full_header(old(self)@),
            old(self)@.len() >= 9 ==> r == Err::<Vec<u8>, ScError>(ScError::EngineFailure)
                || (r is Ok && r->Ok_0@ == lzma_decoded(full_header(old(self)@))
                && size_agrees(size_field(old(self)@), r->Ok_0@)),
    {
        if self.buffer.len() < SHORT_HEADER_LEN {
            return Err(ScError::MalformedInput);
        }
        let field: u32 = read_le_u32(self.buffer.as_slice(), 5);
        match expand_size_field(&mut self.buffer) {
            Ok(()) => {},
            Err(e) => {
                return Err(e);
            },
        }
        match lzma::decompress(self.buffer.as_slice()) {
            Ok(payload) => check_payload(field, payload),
            Err(_) => Err(ScError::EngineFailure),
        }
    }

    /// Drops the 26 bytes of the container header and decodes the rest as a
    /// stream body.
    fn decompress_sc(&mut self) -> (r: Result<Vec<u8>, ScError>)
        requires
            classify_spec(old(self)@) == Ok::<Signature, ScError>(Signature::SC),
        ensures
            final(self)@ == buffer_after(old(self)@),
            stream_body(old(self)@) is None ==> r == Err::<Vec<u8>, ScError>(
                ScError::MalformedInput,
            ),
            stream_body(old(self)@) is Some ==> r == Err::<Vec<u8>, ScError>(
                ScError::EngineFailure,
            ) || (r is Ok && r->Ok_0@ == lzma_decoded(engine_input(old(self)@))
                && size_agrees(size_field(stream_body(old(self)@)->0), r->Ok_0@)),
    {
        if self.buffer.len() < 26 + SHORT_HEADER_LEN {
            return Err(ScError::MalformedInput);
        }
        let body: Vec<u8> = self.buffer.split_off(26);
        self.buffer = body;
        self.decompress_lzma()
    }

    /// Reads the size of the payload at offset 31 and hands out the stream
    /// that stands behind it, from offset 35 on. A buffer of fewer than 35
    /// bytes is malformed.
    pub fn decompress_sclz(&self) -> (r: Result<Unframed, ScError>)
        ensures
            self@.len() < 35 ==> r == Err::<Unframed, ScError>(ScError::MalformedInput),
            self@.len() >= 35 ==> outcome(r) == Ok::<UnframedView, ScError>(
                UnframedView::Decode {
                    stream: self@.subrange(35, self@.len() as int),
                    expected_len: le_u32(self@.subrange(31, 35)) as u32,
                },
            ),
    {
        if self.buffer.len() < 35 {
            return Err(ScError::MalformedInput);
        }
        let expected_len: u32 = read_le_u32(self.buffer.as_slice(), 31);
        let mut stream: Vec<u8> = Vec::new();
        push_all(&mut stream, slice_subrange(self.buffer.as_slice(), 35, self.buffer.len()));
        Ok(Unframed::Decode { stream, expected_len })
    }

    /// Drops the 68 bytes of the signed header and decodes the rest as a
    /// stream body.
    fn decompress_sig(&mut self) -> (r: Result<Vec<u8>, ScError>)
        requires
            classify_spec(old(self)@) == Ok::<Signature, ScError>(Signature::SIG),
        ensures
            final(self)@ == buffer_after(old(self)@),
            stream_body(old(self)@) is None ==> r == Err::<Vec<u8>, ScError>(
                ScError::MalformedInput,
            ),
            stream_body(old(self)@) is Some ==> r == Err::<Vec<u8>, ScError>(
                ScError::EngineFailure,
            ) || (r is Ok && r->Ok_0@ == lzma_decoded(engine_input(old(self)@))
                && size_agrees(size_field(stream_body(old(self)@)->0), r->Ok_0@)),
    {
        if self.buffer.len() < 68 + SHORT_HEADER_LEN {
            return Err(ScError::MalformedInput);
        }
        let body: Vec<u8> = self.buffer.split_off(68);
        self.buffer = body;
        self.decompress_lzma()
    }
}

} // verus!
