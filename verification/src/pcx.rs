//! The dedicated PCX conversion branch: the same decode-then-re-encode
//! pipeline as the generic image converter, with its own, narrower table
//! of accepted targets.

use vstd::prelude::*;
use crate::error::ConversionError;
use crate::text::{lower, eq_lower};
use crate::utils::{
    ImageTarget, ReencodeFailure, encode_ok, format_tag, image_decodes, reencode, reencoded_image,
};

verus! {

/// The encoder chosen for a (lower-cased) target extension by the PCX
/// branch, or `None` when that branch does not save to the extension. The
/// ICO encoder, among others, is not offered here.
pub open spec fn pcx_save_target(s: Seq<char>) -> Option<ImageTarget> {
    if s == "png"@ {
        Some(ImageTarget::Png)
    } else if s == "jpg"@ || s == "jpeg"@ {
        Some(ImageTarget::Jpeg)
    } else if s == "bmp"@ {
        Some(ImageTarget::Bmp)
    } else if s == "tiff"@ || s == "tif"@ {
        Some(ImageTarget::Tiff)
    } else if s == "webp"@ {
        Some(ImageTarget::WebP)
    } else if s == "gif"@ {
        Some(ImageTarget::Gif)
    } else if s == "ppm"@ || s == "pgm"@ || s == "pbm"@ {
        Some(ImageTarget::Pnm)
    } else {
        None
    }
}

/// Converts an image arriving through the PCX branch to the given target
/// format. Fails with `UnsupportedFormat` exactly when the PCX branch has
/// no encoder for the target extension, and with `ImageError` when the
/// image library rejects the input or the encoding.
pub fn convert_pcx(input: &Vec<u8>, target_format: &str) -> (r: Result<Vec<u8>, ConversionError>)
    ensures
        ({
            let t = pcx_save_target(lower(target_format@));
            match t {
                None => r matches Err(ConversionError::UnsupportedFormat(f)) && f@
                    == target_format@,
                Some(tt) => {
                    &&& r is Ok <==> (image_decodes(input@) && encode_ok(input@, format_tag(tt)))
                    &&& (r matches Ok(out) ==> out@ == reencoded_image(input@, format_tag(tt)))
                    &&& (r is Err ==> r matches Err(ConversionError::ImageError(_)))
                },
            }
        }),
{
    let tt: Option<ImageTarget> = if eq_lower(target_format, "png") {
        Some(ImageTarget::Png)
    } else if eq_lower(target_format, "jpg") || eq_lower(target_format, "jpeg") {
        Some(ImageTarget::Jpeg)
    } else if eq_lower(target_format, "bmp") {
        Some(ImageTarget::Bmp)
    } else if eq_lower(target_format, "tiff") || eq_lower(target_format, "tif") {
        Some(ImageTarget::Tiff)
    } else if eq_lower(target_format, "webp") {
        Some(ImageTarget::WebP)
    } else if eq_lower(target_format, "gif") {
        Some(ImageTarget::Gif)
    } else if eq_lower(target_format, "ppm") || eq_lower(target_format, "pgm") || eq_lower(
        target_format,
        "pbm",
    ) {
        Some(ImageTarget::Pnm)
    } else {
        None
    };
    match tt {
        None => Err(ConversionError::UnsupportedFormat(String::from_str(target_format))),
        Some(t) => match reencode(input, t) {
            Ok(out) => Ok(out),
            Err(ReencodeFailure::Decode(m)) => Err(ConversionError::ImageError(m)),
            Err(ReencodeFailure::Encode(m)) => Err(ConversionError::ImageError(m)),
        },
    }
}

} // verus!
