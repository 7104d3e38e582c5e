use vstd::prelude::*;
use vstd::utf8::{decode_utf8, partial_valid_utf8, valid_utf8};

verus! {

/// `core::str::Utf8Error`, the error of `core::str::from_utf8`. It is never
/// looked into.
#[verifier::external_type_specification]
#[verifier::external_body]
pub struct ExUtf8Error(core::str::Utf8Error);

/// `core::str::from_utf8` accepts exactly the byte slices that are well-formed
/// UTF-8, and the text it hands back is what those bytes decode to.
pub assume_specification<'a>[ core::str::from_utf8 ](v: &'a [u8]) -> (r: Result<
    &'a str,
    core::str::Utf8Error,
>)
    ensures
        r is Ok <==> valid_utf8(v@),
        r matches Ok(s) ==> s@ == decode_utf8(v@),
;

/// The ASCII lower-case form of one byte: `A`..`Z` move to `a`..`z`, every
/// other byte stays.
pub open spec fn ascii_lower(b: u8) -> u8 {
    if 0x41 <= b <= 0x5a {
        (b + 0x20) as u8
    } else {
        b
    }
}

/// `chunk` spells `tag` when ASCII case is disregarded.
pub open spec fn spells(chunk: Seq<u8>, tag: Seq<u8>) -> bool {
    &&& chunk.len() == tag.len()
    &&& forall|i: int| 0 <= i < chunk.len() ==> ascii_lower(#[trigger] chunk[i]) == tag[i]
}

/// Whether `bytes` is well-formed UTF-8.
pub fn is_text(bytes: &[u8]) -> (r: bool)
    ensures
        r == valid_utf8(bytes@),
{
    core::str::from_utf8(bytes).is_ok()
}

/// One byte folded to ASCII lower case.
pub fn to_ascii_lower(b: u8) -> (r: u8)
    ensures
        r == ascii_lower(b),
{
    if 0x41 <= b && b <= 0x5a {
        b + 0x20
    } else {
        b
    }
}

/// Compares `chunk` with `tag`, disregarding ASCII case in `chunk`.
pub fn spells_tag(chunk: &[u8], tag: &[u8]) -> (r: bool)
    ensures
        r == spells(chunk@, tag@),
{
    if chunk.len() != tag.len() {
        return false;
    }
    let mut i: usize = 0;
    while i < chunk.len()
        invariant
            i <= chunk.len(),
            chunk.len() == tag.len(),
            forall|j: int| 0 <= j < i ==> ascii_lower(#[trigger] chunk@[j]) == tag@[j],
        decreases chunk.len() - i,
    {
        if to_ascii_lower(chunk[i]) != tag[i] {
            return false;
        }
        i += 1;
    }
    true
}

/// Bytes below `0x80` are well-formed UTF-8, each one a character of its own.
pub proof fn lemma_ascii_is_text(bytes: Seq<u8>)
    requires
        forall|i: int| 0 <= i < bytes.len() ==> #[trigger] bytes[i] < 0x80,
    ensures
        valid_utf8(bytes),
{
    assert(bytes.subrange(0, 0) =~= Seq::<u8>::empty());
    assert(partial_valid_utf8(bytes, 0));
    vstd::utf8::partial_valid_utf8_extend_ascii_block(bytes, 0, bytes.len() as int);
    assert(bytes.subrange(0, bytes.len() as int) =~= bytes);
}

} // verus!
