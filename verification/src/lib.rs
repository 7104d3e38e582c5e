//! Framings of compressed asset payloads: recognising the framing of a buffer,
//! taking it off before the payload is decoded, and putting it on after the
//! payload was encoded.
//!
//! A payload is held as it is, as a bare stream of the stream engine, or
//! behind one of three headers. `signature` tells the five framings apart,
//! `framing` says what each one writes around a stream, and `codec` frames
//! and unframes a buffer. The stream engine is called here; its contracts
//! stand in `engine` and are taken on trust, as is the one of the UTF-8
//! decoder in `text`. The dictionary engine of the extended container is
//! not called here: `codec` hands its input out and takes its output in.
//! `laws` holds what follows for framing and unframing together.

pub mod bytes;
pub mod codec;
pub mod engine;
pub mod error;
pub mod framing;
pub mod hex;
pub mod laws;
pub mod signature;
pub mod text;

pub use codec::{dictionary_payload, new_from_buffer, Framed, ScCompression, Unframed};
pub use error::ScError;
pub use hex::encode_hex;
pub use signature::Signature;
