//! The image side of the format catalog: which extensions are still-image
//! formats, and the fixed target lists offered for a given source class.

use vstd::prelude::*;
use crate::formats::{is_video_ext, lemma_video_tag_facts};
use crate::text::{lower, eq_lower, views_of};
use crate::error::ConversionError;

verus! {

/// Membership of the (lower-cased) still-image extension set.
pub open spec fn is_image_ext(s: Seq<char>) -> bool {
    ||| s == "png"@
    ||| s == "jpg"@
    ||| s == "jpeg"@
    ||| s == "webp"@
    ||| s == "bmp"@
    ||| s == "gif"@
    ||| s == "tiff"@
    ||| s == "ico"@
    ||| s == "ppm"@
    ||| s == "pgm"@
    ||| s == "pbm"@
    ||| s == "avif"@
    ||| s == "heic"@
    ||| s == "heif"@
    ||| s == "tga"@
    ||| s == "dds"@
    ||| s == "apng"@
    ||| s == "cur"@
    ||| s == "exr"@
    ||| s == "svg"@
    ||| s == "pdf"@
    ||| s == "psd"@
    ||| s == "psb"@
    ||| s == "fits"@
    ||| s == "dcm"@
    ||| s == "pcx"@
    ||| s == "jfif"@
}

/// Ground facts about the image tag literals (their lengths and
/// characters), so that distinct tags can be told apart.
pub proof fn lemma_image_tag_facts()
    ensures
        "png"@.len() == 3,
        "png"@[0] == 'p',
        "png"@[1] == 'n',
        "png"@[2] == 'g',
        "jpg"@.len() == 3,
        "jpg"@[0] == 'j',
        "jpg"@[1] == 'p',
        "jpg"@[2] == 'g',
        "jpeg"@.len() == 4,
        "jpeg"@[0] == 'j',
        "jpeg"@[1] == 'p',
        "jpeg"@[2] == 'e',
        "jpeg"@[3] == 'g',
        "webp"@.len() == 4,
        "webp"@[0] == 'w',
        "webp"@[1] == 'e',
        "webp"@[2] == 'b',
        "webp"@[3] == 'p',
        "bmp"@.len() == 3,
        "bmp"@[0] == 'b',
        "bmp"@[1] == 'm',
        "bmp"@[2] == 'p',
        "gif"@.len() == 3,
        "gif"@[0] == 'g',
        "gif"@[1] == 'i',
        "gif"@[2] == 'f',
        "tiff"@.len() == 4,
        "tiff"@[0] == 't',
        "tiff"@[1] == 'i',
        "tiff"@[2] == 'f',
        "tiff"@[3] == 'f',
        "ico"@.len() == 3,
        "ico"@[0] == 'i',
        "ico"@[1] == 'c',
        "ico"@[2] == 'o',
        "ppm"@.len() == 3,
        "ppm"@[0] == 'p',
        "ppm"@[1] == 'p',
        "ppm"@[2] == 'm',
        "pgm"@.len() == 3,
        "pgm"@[0] == 'p',
        "pgm"@[1] == 'g',
        "pgm"@[2] == 'm',
        "pbm"@.len() == 3,
        "pbm"@[0] == 'p',
        "pbm"@[1] == 'b',
        "pbm"@[2] == 'm',
        "avif"@.len() == 4,
        "avif"@[0] == 'a',
        "avif"@[1] == 'v',
        "avif"@[2] == 'i',
        "avif"@[3] == 'f',
        "heic"@.len() == 4,
        "heic"@[0] == 'h',
        "heic"@[1] == 'e',
        "heic"@[2] == 'i',
        "heic"@[3] == 'c',
        "heif"@.len() == 4,
        "heif"@[0] == 'h',
        "heif"@[1] == 'e',
        "heif"@[2] == 'i',
        "heif"@[3] == 'f',
        "tga"@.len() == 3,
        "tga"@[0] == 't',
        "tga"@[1] == 'g',
        "tga"@[2] == 'a',
        "dds"@.len() == 3,
        "dds"@[0] == 'd',
        "dds"@[1] == 'd',
        "dds"@[2] == 's',
        "apng"@.len() == 4,
        "apng"@[0] == 'a',
        "apng"@[1] == 'p',
        "apng"@[2] == 'n',
        "apng"@[3] == 'g',
        "cur"@.len() == 3,
        "cur"@[0] == 'c',
        "cur"@[1] == 'u',
        "cur"@[2] == 'r',
        "exr"@.len() == 3,
        "exr"@[0] == 'e',
        "exr"@[1] == 'x',
        "exr"@[2] == 'r',
        "svg"@.len() == 3,
        "svg"@[0] == 's',
        "svg"@[1] == 'v',
        "svg"@[2] == 'g',
        "pdf"@.len() == 3,
        "pdf"@[0] == 'p',
        "pdf"@[1] == 'd',
        "pdf"@[2] == 'f',
        "psd"@.len() == 3,
        "psd"@[0] == 'p',
        "psd"@[1] == 's',
        "psd"@[2] == 'd',
        "psb"@.len() == 3,
        "psb"@[0] == 'p',
        "psb"@[1] == 's',
        "psb"@[2] == 'b',
        "fits"@.len() == 4,
        "fits"@[0] == 'f',
        "fits"@[1] == 'i',
        "fits"@[2] == 't',
        "fits"@[3] == 's',
        "dcm"@.len() == 3,
        "dcm"@[0] == 'd',
        "dcm"@[1] == 'c',
        "dcm"@[2] == 'm',
        "pcx"@.len() == 3,
        "pcx"@[0] == 'p',
        "pcx"@[1] == 'c',
        "pcx"@[2] == 'x',
        "jfif"@.len() == 4,
        "jfif"@[0] == 'j',
        "jfif"@[1] == 'f',
        "jfif"@[2] == 'i',
        "jfif"@[3] == 'f',
{
    reveal_strlit("png");
    reveal_strlit("jpg");
    reveal_strlit("jpeg");
    reveal_strlit("webp");
    reveal_strlit("bmp");
    reveal_strlit("gif");
    reveal_strlit("tiff");
    reveal_strlit("ico");
    reveal_strlit("ppm");
    reveal_strlit("pgm");
    reveal_strlit("pbm");
    reveal_strlit("avif");
    reveal_strlit("heic");
    reveal_strlit("heif");
    reveal_strlit("tga");
    reveal_strlit("dds");
    reveal_strlit("apng");
    reveal_strlit("cur");
    reveal_strlit("exr");
    reveal_strlit("svg");
    reveal_strlit("pdf");
    reveal_strlit("psd");
    reveal_strlit("psb");
    reveal_strlit("fits");
    reveal_strlit("dcm");
    reveal_strlit("pcx");
    reveal_strlit("jfif");
}

/// True when the (lower-cased) extension is a recognized still-image format.
pub fn is_image_format(format: &str) -> (r: bool)
    ensures
        r == is_image_ext(lower(format@)),
{
    eq_lower(format, "png")
        || eq_lower(format, "jpg")
        || eq_lower(format, "jpeg")
        || eq_lower(format, "webp")
        || eq_lower(format, "bmp")
        || eq_lower(format, "gif")
        || eq_lower(format, "tiff")
        || eq_lower(format, "ico")
        || eq_lower(format, "ppm")
        || eq_lower(format, "pgm")
        || eq_lower(format, "pbm")
        || eq_lower(format, "avif")
        || eq_lower(format, "heic")
        || eq_lower(format, "heif")
        || eq_lower(format, "tga")
        || eq_lower(format, "dds")
        || eq_lower(format, "apng")
        || eq_lower(format, "cur")
        || eq_lower(format, "exr")
        || eq_lower(format, "svg")
        || eq_lower(format, "pdf")
        || eq_lower(format, "psd")
        || eq_lower(format, "psb")
        || eq_lower(format, "fits")
        || eq_lower(format, "dcm")
        || eq_lower(format, "pcx")
        || eq_lower(format, "jfif")
}

/// True when the (lower-cased) extension is a recognized video format.
pub fn is_video_format(format: &str) -> (r: bool)
    ensures
        r == is_video_ext(lower(format@)),
{
    crate::formats::is_video_format(format)
}

/// True when the extension is supported at all: the union of the image and
/// video extension sets.
pub fn is_supported_format(format: &str) -> (r: bool)
    ensures
        r == (is_image_ext(lower(format@)) || is_video_ext(lower(format@))),
{
    is_image_format(format) || is_video_format(format)
}

/// The target extensions offered for a video source.
pub open spec fn video_targets() -> Seq<Seq<char>> {
    seq!["mp4"@, "mkv"@, "mov"@, "webm"@, "avi"@, "flv"@, "mpg"@, "ts"@, "ogv"@]
}

/// The target extensions offered for any non-video source.
pub open spec fn image_targets() -> Seq<Seq<char>> {
    seq![
        "png"@, "jpg"@, "jpeg"@, "webp"@, "bmp"@, "gif"@, "tiff"@, "ico"@, "ppm"@,
        "pgm"@, "pbm"@,
    ]
}

/// Appends one tag to a list of extensions.
fn push_tag(outs: &mut Vec<String>, tag: &str)
    ensures
        views_of(final(outs)@) =~= views_of(old(outs)@).push(tag@),
{
    outs.push(String::from_str(tag));
}

/// The formats a file of the given extension can be converted to: the fixed
/// video target list when the extension is a video format, and the fixed
/// image target list otherwise.
pub fn get_supported_formats(from_format: &str) -> (r: Vec<String>)
    ensures
        is_video_ext(lower(from_format@)) ==> views_of(r@) == video_targets(),
        !is_video_ext(lower(from_format@)) ==> views_of(r@) == image_targets(),
{
    let mut v: Vec<String> = Vec::new();
    if is_video_format(from_format) {
        push_tag(&mut v, "mp4");
        push_tag(&mut v, "mkv");
        push_tag(&mut v, "mov");
        push_tag(&mut v, "webm");
        push_tag(&mut v, "avi");
        push_tag(&mut v, "flv");
        push_tag(&mut v, "mpg");
        push_tag(&mut v, "ts");
        push_tag(&mut v, "ogv");
        assert(views_of(v@) =~= video_targets());
    } else {
        push_tag(&mut v, "png");
        push_tag(&mut v, "jpg");
        push_tag(&mut v, "jpeg");
        push_tag(&mut v, "webp");
        push_tag(&mut v, "bmp");
        push_tag(&mut v, "gif");
        push_tag(&mut v, "tiff");
        push_tag(&mut v, "ico");
        push_tag(&mut v, "ppm");
        push_tag(&mut v, "pgm");
        push_tag(&mut v, "pbm");
        assert(views_of(v@) =~= image_targets());
    }
    v
}


/// The encoders the image library is asked to save with.
#[derive(Debug, Clone, Copy, PartialEq, Eq, Structural)]
pub enum ImageTarget {
    Jpeg,
    Png,
    WebP,
    Bmp,
    Gif,
    Tiff,
    Ico,
    Pnm,
}

/// The canonical tag of an image save target.
pub open spec fn format_tag(t: ImageTarget) -> Seq<char> {
    match t {
        ImageTarget::Jpeg => "jpeg"@,
        ImageTarget::Png => "png"@,
        ImageTarget::WebP => "webp"@,
        ImageTarget::Bmp => "bmp"@,
        ImageTarget::Gif => "gif"@,
        ImageTarget::Tiff => "tiff"@,
        ImageTarget::Ico => "ico"@,
        ImageTarget::Pnm => "pnm"@,
    }
}

/// The encoder chosen for a (lower-cased) target extension by the generic
/// image conversion, or `None` when no encoder handles that extension.
pub open spec fn save_target(s: Seq<char>) -> Option<ImageTarget> {
    if s == "jpg"@ || s == "jpeg"@ {
        Some(ImageTarget::Jpeg)
    } else if s == "png"@ {
        Some(ImageTarget::Png)
    } else if s == "webp"@ {
        Some(ImageTarget::WebP)
    } else if s == "bmp"@ {
        Some(ImageTarget::Bmp)
    } else if s == "gif"@ {
        Some(ImageTarget::Gif)
    } else if s == "tiff"@ || s == "tif"@ {
        Some(ImageTarget::Tiff)
    } else if s == "ico"@ {
        Some(ImageTarget::Ico)
    } else if s == "ppm"@ || s == "pgm"@ || s == "pbm"@ {
        Some(ImageTarget::Pnm)
    } else {
        None
    }
}

/// Maps a target extension to its encoder, as `save_target` says.
pub fn save_target_x(target_format: &str) -> (r: Option<ImageTarget>)
    ensures
        r == save_target(lower(target_format@)),
{
    if eq_lower(target_format, "jpg") || eq_lower(target_format, "jpeg") {
        Some(ImageTarget::Jpeg)
    } else if eq_lower(target_format, "png") {
        Some(ImageTarget::Png)
    } else if eq_lower(target_format, "webp") {
        Some(ImageTarget::WebP)
    } else if eq_lower(target_format, "bmp") {
        Some(ImageTarget::Bmp)
    } else if eq_lower(target_format, "gif") {
        Some(ImageTarget::Gif)
    } else if eq_lower(target_format, "tiff") || eq_lower(target_format, "tif") {
        Some(ImageTarget::Tiff)
    } else if eq_lower(target_format, "ico") {
        Some(ImageTarget::Ico)
    } else if eq_lower(target_format, "ppm") || eq_lower(target_format, "pgm") || eq_lower(
        target_format,
        "pbm",
    ) {
        Some(ImageTarget::Pnm)
    } else {
        None
    }
}

/// Which stage of a decode-then-encode pipeline failed, with the image
/// library's message.
#[derive(Debug, Clone)]
pub enum ReencodeFailure {
    Decode(String),
    Encode(String),
}

/// Whether the image library decodes these bytes (the input format is
/// auto-detected from the content). A function of the bytes alone.
pub uninterp spec fn image_decodes(b: Seq<u8>) -> bool;

/// Whether the image decoded from `b` is accepted by the encoder of target
/// tag `t`. A function of the bytes and the target alone.
pub uninterp spec fn encode_ok(b: Seq<u8>, t: Seq<char>) -> bool;

/// The bytes produced by decoding `b` and re-encoding the image with the
/// encoder of target tag `t`. A function of the bytes and the target alone.
pub uninterp spec fn reencoded_image(b: Seq<u8>, t: Seq<char>) -> Seq<u8>;

/// Relies on image::load_from_memory and image::DynamicImage::write_to:
/// the input bytes are decoded (auto-detecting their format), the decoded
/// image is written back in the requested format, and both steps depend on
/// the input bytes and the target format alone.
#[verifier::external_body]
pub(crate) fn reencode(input: &Vec<u8>, target: ImageTarget) -> (r: Result<Vec<u8>, ReencodeFailure>)
    ensures
        r is Ok <==> (image_decodes(input@) && encode_ok(input@, format_tag(target))),
        r matches Ok(out) ==> out@ == reencoded_image(input@, format_tag(target)),
        r matches Err(ReencodeFailure::Decode(_)) <==> !image_decodes(input@),
{
    let img = match image::load_from_memory(input) {
        Ok(i) => i,
        Err(e) => return Err(ReencodeFailure::Decode(format!("{}", e))),
    };
    let fmt = match target {
        ImageTarget::Jpeg => image::ImageFormat::Jpeg, ImageTarget::Png => image::ImageFormat::Png,
        ImageTarget::WebP => image::ImageFormat::WebP, ImageTarget::Bmp => image::ImageFormat::Bmp,
        ImageTarget::Gif => image::ImageFormat::Gif, ImageTarget::Tiff => image::ImageFormat::Tiff,
        ImageTarget::Ico => image::ImageFormat::Ico, ImageTarget::Pnm => image::ImageFormat::Pnm,
    };
    let mut cur = std::io::Cursor::new(Vec::new());
    match img.write_to(&mut cur, fmt) {
        Ok(()) => Ok(cur.into_inner()),
        Err(e) => Err(ReencodeFailure::Encode(format!("{}", e))),
    }
}

/// Converts any decodable image to the given target format: the input
/// format is auto-detected from the bytes, the target is chosen by its
/// extension. Fails with `UnsupportedFormat` exactly when no encoder
/// handles the target extension, and with `ImageError` when the image
/// library rejects the input or the encoding.
pub fn convert_any_image_format(input: &Vec<u8>, target_format: &str) -> (r: Result<
    Vec<u8>,
    ConversionError,
>)
    ensures
        ({
            let t = save_target(lower(target_format@));
            match t {
                None => r matches Err(ConversionError::UnsupportedFormat(f)) && f@
                    == target_format@,
                Some(tt) => {
                    &&& r is Ok <==> image_decodes(input@) && encode_ok(input@, format_tag(tt))
                    &&& (r matches Ok(out) ==> out@ == reencoded_image(input@, format_tag(tt)))
                    &&& (r is Err ==> r matches Err(ConversionError::ImageError(_)))
                },
            }
        }),
{
    match save_target_x(target_format) {
        None => Err(ConversionError::UnsupportedFormat(String::from_str(target_format))),
        Some(tt) => match reencode(input, tt) {
            Ok(out) => Ok(out),
            Err(ReencodeFailure::Decode(m)) => Err(
                ConversionError::ImageError(
                    String::from_str("Failed to decode image: ").concat(m.as_str()),
                ),
            ),
            Err(ReencodeFailure::Encode(m)) => Err(
                ConversionError::ImageError(
                    String::from_str("Failed to save image: ").concat(m.as_str()),
                ),
            ),
        },
    }
}

/// The image and video extension sets are disjoint: no extension is both a
/// still-image format and a video format.
pub proof fn lemma_format_sets_disjoint()
    ensures
        forall|s: Seq<char>| !(is_image_ext(s) && is_video_ext(s)),
{
    lemma_video_tag_facts();
    lemma_image_tag_facts();
}

} // verus!
