//! Base64 encoding of downloaded images, used for the vision and embedding
//! requests. Downloading itself is I/O and lives outside this library; the
//! functions here take the downloaded bytes, or their absence.

use vstd::prelude::*;

verus! {

/// The padded, standard-alphabet base64 encoding of a byte sequence.
pub uninterp spec fn base64_of(bytes: Seq<u8>) -> Seq<char>;

/// Relies on base64's `Engine::encode` with the `STANDARD` engine: the
/// result is a function of the input bytes alone, four output characters
/// for every three input bytes begun.
#[verifier::external_body]
fn base64_encode(bytes: &Vec<u8>) -> (r: String)
    requires
        bytes@.len() < usize::MAX / 4,
    ensures
        r@ == base64_of(bytes@),
        r@.len() == 4 * ((bytes@.len() + 2) / 3),
{
    base64::Engine::encode(&base64::engine::general_purpose::STANDARD, bytes)
}

/// Encodes the bytes of a downloaded image, treating a failed download as
/// an absent image: callers that attach images best-effort pass `None` on a
/// failure and get `None` back, never an abort.
pub fn encode_downloaded(bytes: Option<Vec<u8>>) -> (r: Option<String>)
    requires
        bytes matches Some(b) ==> b@.len() < usize::MAX / 4,
    ensures
        bytes matches Some(b) ==> r matches Some(s) && s@ == base64_of(b@),
        bytes is None ==> r is None,
{
    match bytes {
        Some(b) => Some(base64_encode(&b)),
        None => None,
    }
}

} // verus!
