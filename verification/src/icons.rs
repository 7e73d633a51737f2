//! The icons of mods as pixels for a texture. Thunderstore icons are 256
//! pixels, a row shows one at 40 points: half the side is a quarter of the
//! memory and still sharp on a retina screen.

use vstd::prelude::*;

verus! {

/// The side of an icon texture, in pixels.
pub const SIDE: u32 = 128;

/// Square RGBA pixels, `side` by `side`.
#[derive(Debug)]
pub struct Pixels {
    pub rgba: Vec<u8>,
    pub side: u32,
}

/// The error of `image`.
#[verifier::external_type_specification]
#[verifier::external_body]
pub struct ExImageError(image::ImageError);

/// The RGBA bytes of the PNG file `png` scaled to `side` by `side` pixels
/// with a triangle filter, `None` when the bytes are no PNG that decodes.
pub uninterp spec fn icon_rgba(png: Seq<u8>, side: u32) -> Option<Seq<u8>>;

/// Decodes `png` with `image::load_from_memory_with_format` as a PNG and
/// scales it with `DynamicImage::resize_exact` and the triangle filter to
/// `side` by `side` pixels, `into_rgba8`. Assumed: the bytes are
/// `icon_rgba` of the file, four for each pixel, and the decode fails
/// exactly when `icon_rgba` is `None`.
#[verifier::external_body]
fn scale_png(png: &[u8], side: u32) -> (r: Result<Vec<u8>, image::ImageError>)
    requires
        0 < side <= SIDE,
    ensures
        match r {
            Ok(v) => icon_rgba(png@, side) == Some(v@) && v@.len() == side * side * 4,
            Err(_) => icon_rgba(png@, side) is None,
        },
{
    let icon = image::load_from_memory_with_format(png, image::ImageFormat::Png)?;
    Ok(icon.resize_exact(side, side, image::imageops::FilterType::Triangle).into_rgba8().into_raw())
}

/// The icon file did not decode.
#[derive(Debug, PartialEq, Eq, Structural)]
pub enum IconError {
    NotPng,
}

/// The icon of a PNG file as a texture of `SIDE` by `SIDE` pixels.
pub fn shrink(png: &[u8]) -> (r: Result<Pixels, IconError>)
    ensures
        match r {
            Ok(p) => p.side == SIDE && icon_rgba(png@, SIDE) == Some(p.rgba@) && p.rgba@.len()
                == SIDE * SIDE * 4,
            Err(_) => icon_rgba(png@, SIDE) is None,
        },
{
    match scale_png(png, SIDE) {
        Ok(rgba) => Ok(Pixels { rgba, side: SIDE }),
        Err(_) => Err(IconError::NotPng),
    }
}

} // verus!
