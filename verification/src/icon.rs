//! Window and tray icons: image bytes decoded to RGBA pixels.
use vstd::prelude::*;

verus! {

/// An icon as 8-bit RGBA pixels, row by row.
pub struct RgbaIcon {
    pub rgba: Vec<u8>,
    pub width: u32,
    pub height: u32,
}

/// Decodes image bytes with `image::load_from_memory` (format guessed from
/// the bytes), converts with `into_rgba8` and reads `dimensions` and
/// `into_raw`. `None` where the crate refuses the bytes.
///
/// The contract claims only that a decoded icon holds at least four bytes
/// per pixel: the `image` crate builds every buffer through
/// `ImageBuffer::from_raw`, which refuses a buffer shorter than that, or as
/// a fresh buffer of exactly that size. Which bytes decode, and to what, is
/// left unsaid: format guessing first consults hooks that any code of the
/// process may register, so the outcome is not a function of the bytes
/// alone.
#[verifier::external_body]
fn decode_rgba(bytes: &[u8]) -> (r: Option<RgbaIcon>)
    ensures
        r matches Some(i) ==> i.rgba@.len() >= 4 * (i.width as int) * (i.height as int),
{
    match image::load_from_memory(bytes) {
        Ok(img) => {
            let img = img.into_rgba8();
            let (width, height) = img.dimensions();
            Some(RgbaIcon { rgba: img.into_raw(), width, height })
        },
        Err(_) => None,
    }
}

/// Decodes an icon file (PNG or any other format the `image` crate reads)
/// into RGBA pixels; `None` when the bytes are not a readable image.
pub fn load_icon(bytes: &[u8]) -> (r: Option<RgbaIcon>)
    ensures
        r matches Some(i) ==> i.rgba@.len() >= 4 * (i.width as int) * (i.height as int),
{
    decode_rgba(bytes)
}

} // verus!
