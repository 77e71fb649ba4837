//! The dispatch layer: given a source and a target format tag, decide
//! which conversion strategy handles the request, and run the image-side
//! strategies on in-memory bytes.

use vstd::prelude::*;
use crate::error::ConversionError;
use crate::formats::is_video_ext;
use crate::text::lower;
use crate::utils::{
    convert_any_image_format, encode_ok, format_tag, image_decodes, is_image_ext, reencoded_image,
    save_target,
};

verus! {

/// The strategy a conversion request is routed to.
#[derive(Debug, Clone, Copy, PartialEq, Eq, Structural)]
pub enum Route {
    /// The generic decode-then-re-encode image path.
    GenericImage,
    /// The per-source-format image path.
    DedicatedImage,
    /// The external video transcoder.
    Video,
    /// No strategy handles the source format.
    Unsupported,
}

/// The routing rule, over lower-cased tags, in its precedence order: a
/// target equal to the animated-image container forces the generic image
/// path whatever the source is; then a video source goes to the
/// transcoder; then an image source goes to its per-format image path;
/// anything else is unsupported.
pub open spec fn route_of(from: Seq<char>, to: Seq<char>) -> Route {
    if to == "gif"@ {
        Route::GenericImage
    } else if is_video_ext(from) {
        Route::Video
    } else if is_image_ext(from) {
        Route::DedicatedImage
    } else {
        Route::Unsupported
    }
}

/// Decides which strategy handles a source/target pair, as `route_of`
/// says.
pub fn route_conversion(from_format: &str, to_format: &str) -> (r: Route)
    ensures
        r == route_of(lower(from_format@), lower(to_format@)),
{
    if crate::text::eq_lower(to_format, "gif") {
        Route::GenericImage
    } else if crate::formats::is_video_format(from_format) {
        Route::Video
    } else if crate::utils::is_image_format(from_format) {
        Route::DedicatedImage
    } else {
        Route::Unsupported
    }
}

/// A target equal to the animated-image container always routes to the
/// generic image path, whatever the source format is — even one with a
/// dedicated per-format branch.
pub proof fn lemma_animated_target_routes_generic(from: Seq<char>)
    ensures
        route_of(from, "gif"@) == Route::GenericImage,
{
}

/// An unrecognized source format (with a target other than the
/// animated-image container) is routed nowhere: the request is rejected.
pub proof fn lemma_unknown_source_rejected(from: Seq<char>, to: Seq<char>)
    requires
        !is_image_ext(from),
        !is_video_ext(from),
        to != "gif"@,
    ensures
        route_of(from, to) == Route::Unsupported,
{
}

/// What the dispatcher did with a request.
#[derive(Debug, Clone)]
pub enum DispatchOutcome {
    /// An image conversion ran; these are the output bytes.
    Converted(Vec<u8>),
    /// The request is a video conversion: it needs the external
    /// transcoder, which runs outside this library.
    NeedsTranscode,
    /// The request failed.
    Failed(ConversionError),
}

/// Dispatches one in-memory conversion request: image routes run the
/// decode-then-re-encode pipeline here; video routes are handed back to
/// the caller for transcoding; an unrecognized source format fails with
/// `UnsupportedFormat` and produces no output.
pub fn dispatch_bytes(input: &Vec<u8>, from_format: &str, to_format: &str) -> (r: DispatchOutcome)
    ensures
        ({
            let rt = route_of(lower(from_format@), lower(to_format@));
            match rt {
                Route::Video => r is NeedsTranscode,
                Route::Unsupported => r matches DispatchOutcome::Failed(
                    ConversionError::UnsupportedFormat(f),
                ) && f@ == from_format@,
                _ => match save_target(lower(to_format@)) {
                    None => r matches DispatchOutcome::Failed(
                        ConversionError::UnsupportedFormat(f),
                    ) && f@ == to_format@,
                    Some(tt) => {
                        &&& r is Converted <==> (image_decodes(input@) && encode_ok(
                            input@,
                            format_tag(tt),
                        ))
                        &&& (r matches DispatchOutcome::Converted(out) ==> out@
                            == reencoded_image(input@, format_tag(tt)))
                        &&& (!(r is Converted) ==> r matches DispatchOutcome::Failed(
                            ConversionError::ImageError(_),
                        ))
                    },
                },
            }
        }),
{
    match route_conversion(from_format, to_format) {
        Route::Video => DispatchOutcome::NeedsTranscode,
        Route::Unsupported => DispatchOutcome::Failed(
            ConversionError::UnsupportedFormat(String::from_str(from_format)),
        ),
        Route::GenericImage | Route::DedicatedImage => {
            match convert_any_image_format(input, to_format) {
                Ok(out) => DispatchOutcome::Converted(out),
                Err(e) => DispatchOutcome::Failed(e),
            }
        },
    }
}

} // verus!
