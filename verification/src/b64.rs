use base64::Engine;
use vstd::prelude::*;

verus! {

/// The base64 text of a byte string: standard alphabet, with padding.
pub uninterp spec fn base64_text(bytes: Seq<u8>) -> Seq<char>;

/// The bytes that a base64 text stands for, or `None` where the text is not
/// padded base64 in the standard alphabet.
pub uninterp spec fn base64_bytes(text: Seq<char>) -> Option<Seq<u8>>;

/// Whether a byte string of this length can be written in base64: the text,
/// four characters for every three bytes, must fit in an allocation.
pub open spec fn encodable_len(len: nat) -> bool {
    len / 3 < usize::MAX / 8
}

/// Calls `Engine::encode` of `base64::prelude::BASE64_STANDARD`. The call
/// panics where the length of the text overflows, which `requires` leaves out.
/// The result is the text named by `base64_text`.
#[verifier::external_body]
pub(crate) fn encode(bytes: &[u8]) -> (r: String)
    requires
        encodable_len(bytes@.len()),
    ensures
        r@ == base64_text(bytes@),
{
    base64::prelude::BASE64_STANDARD.encode(bytes)
}

/// Calls `Engine::decode` of `base64::prelude::BASE64_STANDARD`. The result
/// is the byte string named by `base64_bytes`; an error of the decoder
/// becomes `None`.
#[verifier::external_body]
pub(crate) fn decode(text: &str) -> (r: Option<Vec<u8>>)
    ensures
        match r {
            Some(bytes) => base64_bytes(text@) == Some(bytes@),
            None => base64_bytes(text@) is None,
        },
{
    base64::prelude::BASE64_STANDARD.decode(text).ok()
}

} // verus!
