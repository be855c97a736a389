//! URL-safe base64 without padding, as the protocol's signed envelopes and
//! finalize payload require. The encoding itself comes from the outside
//! `base64` crate; its result is named, not restated.

use vstd::prelude::*;

verus! {

/// The URL-safe, unpadded base64 text of a byte sequence: a function of the
/// bytes alone, produced by the outside encoder.
pub uninterp spec fn b64_url_of(bytes: Seq<u8>) -> Seq<char>;

/// Relies on base64::encode_config with the URL_SAFE_NO_PAD config: the
/// result depends on the input bytes alone, and an empty input encodes to an
/// empty string. The length bound keeps the encoder's output-size
/// computation inside usize, the one case where it would panic.
#[verifier::external_body]
pub fn b64_encode(input: &[u8]) -> (r: String)
    requires
        input@.len() <= usize::MAX / 4 * 3,
    ensures
        r@ == b64_url_of(input@),
        input@.len() == 0 ==> r@.len() == 0,
{
    base64::encode_config(input, base64::URL_SAFE_NO_PAD)
}

} // verus!
