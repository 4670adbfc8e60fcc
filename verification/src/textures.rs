//! The bundled world-map textures: which one a config names, and decoding
//! a PNG into RGBA8 pixels for upload.

use vstd::prelude::*;
use crate::text::{debug_quoted, debug_string, push_str, str_eq};

verus! {

#[derive(Debug, Clone, Copy, PartialEq, Eq, Structural)]
pub enum TextureChoice {
    NaturalEarth,
    EarthAtNight,
}

/// A texture name that names no bundled texture.
#[derive(Debug, Clone, PartialEq, Eq)]
pub struct UnknownTexture(pub String);

impl UnknownTexture {
    /// The error's text: the name, quoted, and the names that exist.
    pub fn message(&self) -> (m: String)
        ensures
            m@ == "unknown texture "@ + debug_quoted(self.0@)
                + " (expected \"natural_earth\" or \"earth_at_night\")"@,
    {
        let mut m = String::new();
        push_str(&mut m, "unknown texture ");
        push_str(&mut m, debug_string(self.0.as_str()).as_str());
        push_str(&mut m, " (expected \"natural_earth\" or \"earth_at_night\")");
        m
    }
}

impl TextureChoice {
    pub fn parse(s: &str) -> (r: Result<Self, UnknownTexture>)
        ensures
            s@ == "natural_earth"@ ==> r == Ok::<TextureChoice, UnknownTexture>(
                TextureChoice::NaturalEarth,
            ),
            s@ != "natural_earth"@ && s@ == "earth_at_night"@ ==> r == Ok::<
                TextureChoice,
                UnknownTexture,
            >(TextureChoice::EarthAtNight),
            s@ != "natural_earth"@ && s@ != "earth_at_night"@ ==> (r matches Err(e) && e.0@
                == s@),
    {
        if str_eq(s, "natural_earth") {
            Ok(TextureChoice::NaturalEarth)
        } else if str_eq(s, "earth_at_night") {
            Ok(TextureChoice::EarthAtNight)
        } else {
            Err(UnknownTexture(s.to_owned()))
        }
    }
}

#[verifier::external_type_specification]
#[verifier::external_body]
pub struct ExImageError(image::ImageError);

/// Width, height and RGBA8 pixel bytes that the `image` crate's PNG
/// decoder gives for `png`, or `None` where it refuses it.
pub uninterp spec fn png_rgba8(png: Seq<u8>) -> Option<(u32, u32, Seq<u8>)>;

/// `image::load_from_memory_with_format(png, ImageFormat::Png)` followed by
/// `DynamicImage::to_rgba8`. Claimed: the result is a function of the bytes
/// alone, named `png_rgba8`; nothing more is said of the pixels.
#[verifier::external_body]
fn load_png_rgba8(png: &[u8]) -> (r: Result<(u32, u32, Vec<u8>), image::ImageError>)
    ensures
        r matches Ok((w, h, px)) ==> png_rgba8(png@) == Some((w, h, px@)),
        r is Err ==> png_rgba8(png@) is None,
{
    match image::load_from_memory_with_format(png, image::ImageFormat::Png) {
        Ok(img) => {
            let rgba = img.to_rgba8();
            let (w, h) = rgba.dimensions();
            Ok((w, h, rgba.into_raw()))
        },
        Err(e) => Err(e),
    }
}

/// A decoded image: `pixels` holds RGBA8 rows, top to bottom.
pub struct RgbaImage {
    pub width: u32,
    pub height: u32,
    pub pixels: Vec<u8>,
}

/// Why a bundled texture could not be decoded.
#[derive(Debug)]
pub enum TextureError {
    Decode(image::ImageError),
}

/// Decode a PNG texture into RGBA8 pixels.
pub fn decode(png: &[u8]) -> (r: Result<RgbaImage, TextureError>)
    ensures
        r matches Ok(img) ==> png_rgba8(png@) == Some((img.width, img.height, img.pixels@)),
        r is Err <==> png_rgba8(png@) is None,
{
    match load_png_rgba8(png) {
        Ok((width, height, pixels)) => Ok(RgbaImage { width, height, pixels }),
        Err(e) => Err(TextureError::Decode(e)),
    }
}

} // verus!
