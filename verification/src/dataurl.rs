//! Rendering an encoded thumbnail as a `data:` URL, for callers that embed
//! the image directly instead of receiving raw bytes.

use vstd::prelude::*;
use base64::Engine;

verus! {

/// The characters the standard padded base64 alphabet produces for a byte
/// sequence, as ASCII bytes. The encoding depends on the input alone.
pub uninterp spec fn base64_standard_of(data: Seq<u8>) -> Seq<u8>;

/// Relies on base64's STANDARD engine (padded): its output encodes the
/// input bytes alone and has exactly `4 * ceil(len / 3)` characters.
#[verifier::external_body]
fn base64_encode_standard(data: &Vec<u8>) -> (r: Vec<u8>)
    requires
        data@.len() * 4 + 4 <= usize::MAX,
    ensures
        r@ == base64_standard_of(data@),
        r@.len() == 4 * ((data@.len() + 2) / 3),
{
    base64::engine::general_purpose::STANDARD.encode(data).into_bytes()
}

/// The ASCII bytes of `data:image/jpeg;base64,`, the scheme and media type
/// that precede the payload of a JPEG data URL.
pub open spec fn jpeg_data_url_prefix() -> Seq<u8> {
    seq![
        100u8, 97, 116, 97, 58, 105, 109, 97, 103, 101, 47, 106, 112, 101, 103, 59, 98, 97, 115,
        101, 54, 52, 44,
    ]
}

/// Render JPEG bytes as a `data:image/jpeg;base64,<payload>` URL, returned
/// as ASCII bytes.
pub fn jpeg_data_url(jpeg: &Vec<u8>) -> (r: Vec<u8>)
    requires
        jpeg@.len() * 4 + 4 <= usize::MAX,
    ensures
        r@ == jpeg_data_url_prefix() + base64_standard_of(jpeg@),
{
    let mut out: Vec<u8> = Vec::new();
    out.push(100);
    out.push(97);
    out.push(116);
    out.push(97);
    out.push(58);
    out.push(105);
    out.push(109);
    out.push(97);
    out.push(103);
    out.push(101);
    out.push(47);
    out.push(106);
    out.push(112);
    out.push(101);
    out.push(103);
    out.push(59);
    out.push(98);
    out.push(97);
    out.push(115);
    out.push(101);
    out.push(54);
    out.push(52);
    out.push(44);
    proof {
        assert(out@ =~= jpeg_data_url_prefix());
    }
    let mut payload = base64_encode_standard(jpeg);
    out.append(&mut payload);
    out
}

} // verus!
