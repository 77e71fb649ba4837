//! The video transcoder: holds one input/output pair with its encoding
//! options, and builds the exact argument list of the external encoder
//! invocation. Running the external process happens outside this library;
//! the mapping from its exit to the uniform error is here.

use vstd::prelude::*;
use crate::error::{ConversionError, ProvisionError, provision_message};
use crate::formats::{codec_for, is_video_ext};
use crate::text::{lower, lower_str, eq_lower, views_of};

verus! {

/// One video transcoding request: paths, target format (stored
/// lower-cased), and the encoding options, defaulted at construction.
#[derive(Debug, Clone)]
pub struct VideoTranscoder {
    pub input_path: String,
    pub output_path: String,
    pub target_format: String,
    pub bitrate: String,
    pub preset: String,
}

/// The audio codec chosen for a (lower-cased) target format: the Opus
/// family for the WebM container, the AAC family otherwise.
pub open spec fn audio_codec_for(t: Seq<char>) -> Seq<char> {
    if t == "webm"@ {
        "libopus"@
    } else {
        "aac"@
    }
}

/// The exact argument list of the encoder invocation built from `t`:
/// input, overwrite flag, video codec, video bitrate, preset, audio codec,
/// fixed audio bitrate, output.
pub open spec fn transcode_args_of(t: VideoTranscoder) -> Seq<Seq<char>> {
    seq![
        "-i"@,
        t.input_path@,
        "-y"@,
        "-c:v"@,
        codec_for(lower(t.target_format@)),
        "-b:v"@,
        t.bitrate@,
        "-preset"@,
        t.preset@,
        "-c:a"@,
        audio_codec_for(lower(t.target_format@)),
        "-b:a"@,
        "128k"@,
        t.output_path@,
    ]
}

impl VideoTranscoder {
    /// A transcoder for one input/output pair, with the default bitrate
    /// and preset.
    pub fn new(input_path: &str, output_path: &str, target_format: &str) -> (r: VideoTranscoder)
        ensures
            r.input_path@ == input_path@,
            r.output_path@ == output_path@,
            r.target_format@ == lower(target_format@),
            r.bitrate@ == "5000k"@,
            r.preset@ == "medium"@,
    {
        VideoTranscoder {
            input_path: String::from_str(input_path),
            output_path: String::from_str(output_path),
            target_format: lower_str(target_format),
            bitrate: String::from_str("5000k"),
            preset: String::from_str("medium"),
        }
    }

    /// The same request with another video bitrate.
    pub fn with_bitrate(self, bitrate: &str) -> (r: VideoTranscoder)
        ensures
            r.bitrate@ == bitrate@,
            r.input_path == self.input_path,
            r.output_path == self.output_path,
            r.target_format == self.target_format,
            r.preset == self.preset,
    {
        VideoTranscoder { bitrate: String::from_str(bitrate), ..self }
    }

    /// The same request with another encoder preset.
    pub fn with_preset(self, preset: &str) -> (r: VideoTranscoder)
        ensures
            r.preset@ == preset@,
            r.input_path == self.input_path,
            r.output_path == self.output_path,
            r.target_format == self.target_format,
            r.bitrate == self.bitrate,
    {
        VideoTranscoder { preset: String::from_str(preset), ..self }
    }

    /// Builds the encoder's argument list for this request, exactly as
    /// `transcode_args_of` says.
    pub fn transcode_args(&self) -> (r: Vec<String>)
        ensures
            views_of(r@) == transcode_args_of(*self),
    {
        let mut v: Vec<String> = Vec::new();
        v.push(String::from_str("-i"));
        v.push(self.input_path.clone());
        v.push(String::from_str("-y"));
        v.push(String::from_str("-c:v"));
        v.push(crate::formats::get_video_codec_for_format(self.target_format.as_str()));
        v.push(String::from_str("-b:v"));
        v.push(self.bitrate.clone());
        v.push(String::from_str("-preset"));
        v.push(self.preset.clone());
        v.push(String::from_str("-c:a"));
        if eq_lower(self.target_format.as_str(), "webm") {
            v.push(String::from_str("libopus"));
        } else {
            v.push(String::from_str("aac"));
        }
        v.push(String::from_str("-b:a"));
        v.push(String::from_str("128k"));
        v.push(self.output_path.clone());
        assert(views_of(v@) =~= transcode_args_of(*self));
        v
    }
}

/// Maps the exit of the external encoder process to the uniform result:
/// only a zero exit status counts as success; a non-zero status and a
/// spawn failure each carry their message.
pub fn transcode_outcome(status: Result<bool, String>) -> (r: Result<(), ConversionError>)
    ensures
        r is Ok <==> status matches Ok(true),
        status matches Ok(false) ==> (r matches Err(ConversionError::ImageError(m)) && m@
            == "FFmpeg transcoding failed. The file format may not be supported."@),
        status matches Err(e) ==> (r matches Err(ConversionError::ImageError(m)) && m@
            == "Failed to run FFmpeg: "@ + e@),
{
    match status {
        Ok(true) => Ok(()),
        Ok(false) => Err(
            ConversionError::ImageError(
                String::from_str("FFmpeg transcoding failed. The file format may not be supported."),
            ),
        ),
        Err(e) => Err(
            ConversionError::ImageError(
                String::from_str("Failed to run FFmpeg: ").concat(e.as_str()),
            ),
        ),
    }
}

/// Maps a provisioning failure to the uniform conversion error, keeping
/// its provisioning message.
pub fn provision_error_to_conversion(e: &ProvisionError) -> (r: ConversionError)
    ensures
        r matches ConversionError::ImageError(m) && m@ == provision_message(*e),
{
    ConversionError::ImageError(e.message())
}

/// Checks the target format and builds the transcoder for one video
/// conversion, with the default options and the medium preset. Succeeds
/// exactly when the target is a recognized video format; otherwise the
/// target is reported as unsupported.
pub fn convert_video(input_path: &str, output_path: &str, target_format: &str) -> (r: Result<
    VideoTranscoder,
    ConversionError,
>)
    ensures
        r is Ok <==> is_video_ext(lower(target_format@)),
        r matches Ok(t) ==> {
            &&& t.input_path@ == input_path@
            &&& t.output_path@ == output_path@
            &&& t.target_format@ == lower(target_format@)
            &&& t.bitrate@ == "5000k"@
            &&& t.preset@ == "medium"@
        },
        r matches Err(e) ==> (e matches ConversionError::UnsupportedFormat(f) && f@
            == target_format@),
{
    if !crate::formats::is_video_format(target_format) {
        return Err(ConversionError::UnsupportedFormat(String::from_str(target_format)));
    }
    Ok(VideoTranscoder::new(input_path, output_path, target_format).with_preset("medium"))
}

} // verus!
