//! Image payload encoding and timestamps.
//!
//! Image payloads travel as self-contained base64 data URLs, not as remote
//! references; the prefix and the encoding are fixed by the wire contract.

use base64::Engine;
use vstd::prelude::*;
use vstd::string::StringExecFns;

verus! {

/// The standard padded base64 encoding of a byte sequence, as base64's
/// `STANDARD` engine computes it.
pub uninterp spec fn base64_chars(bytes: Seq<u8>) -> Seq<char>;

/// Relies on base64's `Engine::encode` with the standard padded alphabet:
/// the encoding depends on the input bytes alone, and the padded output is
/// four characters for every started group of three bytes.
#[verifier::external_body]
fn base64_encode(bytes: &Vec<u8>) -> (r: String)
    requires
        4 * ((bytes@.len() + 2) / 3) <= usize::MAX,
    ensures
        r@ == base64_chars(bytes@),
        r@.len() == 4 * ((bytes@.len() + 2) / 3),
{
    base64::engine::general_purpose::STANDARD.encode(bytes)
}

/// The data URL carrying an image payload inline.
pub open spec fn spec_data_url(bytes: Seq<u8>) -> Seq<char> {
    "data:image/jpeg;base64,"@ + base64_chars(bytes)
}

/// Encode raw image bytes as the inline data URL used on the wire and in
/// stored artifacts.
pub fn encode_image_data_url(bytes: &Vec<u8>) -> (r: String)
    requires
        4 * ((bytes@.len() + 2) / 3) <= usize::MAX,
    ensures
        r@ == spec_data_url(bytes@),
{
    let mut s = String::from_str("data:image/jpeg;base64,");
    let encoded = base64_encode(bytes);
    s.append(encoded.as_str());
    s
}

/// Relies on chrono's `Utc::now` and `format`: the current time rendered as
/// `YYYY-MM-DD hh:mm:ss`.  The value depends on the clock, so nothing is
/// promised of it.
#[verifier::external_body]
pub(crate) fn now_timestamp() -> String {
    chrono::Utc::now().format("%Y-%m-%d %H:%M:%S").to_string()
}

} // verus!
