//! Handing a clipboard image to the page: PNG bytes travel as standard
//! base64 text.
use vstd::prelude::*;
use base64::Engine;

verus! {

/// The character of a 6-bit value in the standard base64 alphabet
/// `A-Z a-z 0-9 + /`.
pub open spec fn base64_char(v: int) -> char {
    if v < 26 {
        (v + 65) as char
    } else if v < 52 {
        (v - 26 + 97) as char
    } else if v < 62 {
        (v - 52 + 48) as char
    } else if v == 62 {
        '+'
    } else {
        '/'
    }
}

/// Standard base64 (RFC 4648, with `=` padding): every three bytes become
/// four characters; a final group of one or two bytes is padded.
pub open spec fn base64_standard(b: Seq<u8>) -> Seq<char>
    decreases b.len(),
{
    if b.len() == 0 {
        Seq::empty()
    } else if b.len() == 1 {
        seq![base64_char(b[0] as int / 4), base64_char((b[0] % 4) * 16), '=', '=']
    } else if b.len() == 2 {
        seq![
            base64_char(b[0] as int / 4),
            base64_char((b[0] % 4) * 16 + b[1] / 16),
            base64_char((b[1] % 16) * 4),
            '=',
        ]
    } else {
        seq![
            base64_char(b[0] as int / 4),
            base64_char((b[0] % 4) * 16 + b[1] / 16),
            base64_char((b[1] % 16) * 4 + b[2] / 64),
            base64_char(b[2] as int % 64),
        ] + base64_standard(b.skip(3))
    }
}

/// The length of the padded encoding of `n` bytes fits in a `usize`.
pub open spec fn base64_len_fits(n: nat) -> bool {
    (n / 3) * 4 + (if n % 3 > 0 {
        4int
    } else {
        0int
    }) <= usize::MAX
}

/// Encodes with `base64::engine::general_purpose::STANDARD`. The contract
/// claims the standard padded encoding; inputs whose encoded length would
/// overflow a `usize` (where the crate panics) are excluded.
#[verifier::external_body]
fn encode_standard(bytes: &[u8]) -> (r: String)
    requires
        base64_len_fits(bytes@.len()),
    ensures
        r@ == base64_standard(bytes@),
{
    base64::engine::general_purpose::STANDARD.encode(bytes)
}

/// The answer to the page's request for the clipboard image: the PNG bytes
/// read from the clipboard, base64-encoded, or the reason none was read.
pub fn read_clipboard_image(png: Result<Vec<u8>, String>) -> (r: Result<String, String>)
    requires
        png matches Ok(b) ==> base64_len_fits(b@.len()),
    ensures
        match png {
            Ok(b) => r matches Ok(s) && s@ == base64_standard(b@),
            Err(e) => r matches Err(m) && m@ == e@,
        },
{
    match png {
        Ok(b) => Ok(encode_standard(b.as_slice())),
        Err(e) => Err(e),
    }
}

} // verus!
