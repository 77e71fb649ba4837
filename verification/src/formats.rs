//! The video side of the format catalog: which extensions are video
//! formats, the descriptor (canonical extension, container, default codec,
//! compatible outputs) of each, and the codec chosen for a target format.

use vstd::prelude::*;
use crate::text::{lower, eq_lower, views_of};

verus! {

/// One supported video format: canonical extension, container name,
/// default codec, and the extensions it can be converted to.
#[derive(Debug, Clone)]
pub struct VideoFormat {
    pub extension: String,
    pub container: String,
    pub codec: String,
    pub compatible_outputs: Vec<String>,
}

/// Membership of the (lower-cased) video extension set.
pub open spec fn is_video_ext(s: Seq<char>) -> bool {
    ||| s == "mp4"@
    ||| s == "m4v"@
    ||| s == "mkv"@
    ||| s == "mov"@
    ||| s == "webm"@
    ||| s == "avi"@
    ||| s == "flv"@
    ||| s == "mpg"@
    ||| s == "mpeg"@
    ||| s == "ts"@
    ||| s == "m2ts"@
    ||| s == "mts"@
    ||| s == "ogv"@
    ||| s == "ogg"@
}

/// The extensions for which the catalog holds a descriptor: the video
/// extension set together with the long-form aliases of three containers.
pub open spec fn is_video_info_ext(s: Seq<char>) -> bool {
    ||| is_video_ext(s)
    ||| s == "matroska"@
    ||| s == "quicktime"@
    ||| s == "mpeg2"@
}

/// The canonical extension that a (lower-cased) video extension resolves to.
pub open spec fn video_ext_canon(s: Seq<char>) -> Seq<char> {
    if s == "mp4"@ || s == "m4v"@ {
        "mp4"@
    } else if s == "mkv"@ || s == "matroska"@ {
        "mkv"@
    } else if s == "mov"@ || s == "quicktime"@ {
        "mov"@
    } else if s == "webm"@ {
        "webm"@
    } else if s == "avi"@ {
        "avi"@
    } else if s == "flv"@ {
        "flv"@
    } else if s == "mpg"@ || s == "mpeg"@ || s == "mpeg2"@ {
        "mpg"@
    } else if s == "ts"@ || s == "m2ts"@ || s == "mts"@ {
        "ts"@
    } else {
        "ogv"@
    }
}

/// The container name of a (lower-cased) video extension.
pub open spec fn video_container(s: Seq<char>) -> Seq<char> {
    if s == "mp4"@ || s == "m4v"@ {
        "mp4"@
    } else if s == "mkv"@ || s == "matroska"@ {
        "matroska"@
    } else if s == "mov"@ || s == "quicktime"@ {
        "mov"@
    } else if s == "webm"@ {
        "webm"@
    } else if s == "avi"@ {
        "avi"@
    } else if s == "flv"@ {
        "flv"@
    } else if s == "mpg"@ || s == "mpeg"@ || s == "mpeg2"@ {
        "mpg"@
    } else if s == "ts"@ || s == "m2ts"@ || s == "mts"@ {
        "mpegts"@
    } else {
        "ogg"@
    }
}

/// The codec chosen for a (lower-cased) target extension. Total: every
/// input, recognized or not, yields a codec; the H.264 family is the
/// default.
pub open spec fn codec_for(s: Seq<char>) -> Seq<char> {
    if s == "webm"@ {
        "vp9"@
    } else if s == "ogv"@ || s == "ogg"@ {
        "theora"@
    } else if s == "mpg"@ || s == "mpeg"@ {
        "mpeg2"@
    } else if s == "avi"@ {
        "mpeg4"@
    } else {
        "h264"@
    }
}

/// The default codec recorded in the descriptor of a video extension.
pub open spec fn video_codec(s: Seq<char>) -> Seq<char> {
    if s == "webm"@ {
        "vp9"@
    } else if s == "avi"@ {
        "mpeg4"@
    } else if s == "mpg"@ || s == "mpeg"@ || s == "mpeg2"@ {
        "mpeg2"@
    } else if s == "ogv"@ || s == "ogg"@ {
        "theora"@
    } else {
        "h264"@
    }
}

/// The compatible-output list shared by the MP4-, Matroska-, QuickTime- and
/// AVI-family entries.
pub open spec fn outputs_std() -> Seq<Seq<char>> {
    seq!["mp4"@, "mkv"@, "mov"@, "webm"@, "avi"@, "flv"@, "mpg"@, "ts"@, "ogv"@]
}

pub open spec fn outputs_webm() -> Seq<Seq<char>> {
    seq!["mp4"@, "mkv"@, "mov"@, "avi"@, "flv"@, "mpg"@, "ts"@, "ogv"@, "webm"@]
}

pub open spec fn outputs_flv() -> Seq<Seq<char>> {
    seq!["mp4"@, "mkv"@, "mov"@, "avi"@, "webm"@, "mpg"@, "ts"@, "ogv"@, "flv"@]
}

pub open spec fn outputs_mpg() -> Seq<Seq<char>> {
    seq!["mp4"@, "mkv"@, "mov"@, "avi"@, "webm"@, "flv"@, "ts"@, "ogv"@, "mpg"@]
}

pub open spec fn outputs_ts() -> Seq<Seq<char>> {
    seq!["mp4"@, "mkv"@, "mov"@, "avi"@, "webm"@, "mpg"@, "ogv"@, "ts"@]
}

pub open spec fn outputs_ogv() -> Seq<Seq<char>> {
    seq!["mp4"@, "mkv"@, "mov"@, "avi"@, "webm"@, "ogv"@]
}

/// The compatible-output list of a (lower-cased) video extension.
pub open spec fn video_outputs(s: Seq<char>) -> Seq<Seq<char>> {
    if s == "webm"@ {
        outputs_webm()
    } else if s == "flv"@ {
        outputs_flv()
    } else if s == "mpg"@ || s == "mpeg"@ || s == "mpeg2"@ {
        outputs_mpg()
    } else if s == "ts"@ || s == "m2ts"@ || s == "mts"@ {
        outputs_ts()
    } else if s == "ogv"@ || s == "ogg"@ {
        outputs_ogv()
    } else {
        outputs_std()
    }
}

/// Ground facts about the video tag literals (their lengths and
/// characters), so that distinct tags can be told apart.
pub proof fn lemma_video_tag_facts()
    ensures
        "mp4"@.len() == 3,
        "mp4"@[0] == 'm',
        "mp4"@[1] == 'p',
        "mp4"@[2] == '4',
        "m4v"@.len() == 3,
        "m4v"@[0] == 'm',
        "m4v"@[1] == '4',
        "m4v"@[2] == 'v',
        "mkv"@.len() == 3,
        "mkv"@[0] == 'm',
        "mkv"@[1] == 'k',
        "mkv"@[2] == 'v',
        "matroska"@.len() == 8,
        "matroska"@[0] == 'm',
        "matroska"@[1] == 'a',
        "matroska"@[2] == 't',
        "matroska"@[3] == 'r',
        "matroska"@[4] == 'o',
        "matroska"@[5] == 's',
        "matroska"@[6] == 'k',
        "matroska"@[7] == 'a',
        "mov"@.len() == 3,
        "mov"@[0] == 'm',
        "mov"@[1] == 'o',
        "mov"@[2] == 'v',
        "quicktime"@.len() == 9,
        "quicktime"@[0] == 'q',
        "quicktime"@[1] == 'u',
        "quicktime"@[2] == 'i',
        "quicktime"@[3] == 'c',
        "quicktime"@[4] == 'k',
        "quicktime"@[5] == 't',
        "quicktime"@[6] == 'i',
        "quicktime"@[7] == 'm',
        "quicktime"@[8] == 'e',
        "webm"@.len() == 4,
        "webm"@[0] == 'w',
        "webm"@[1] == 'e',
        "webm"@[2] == 'b',
        "webm"@[3] == 'm',
        "avi"@.len() == 3,
        "avi"@[0] == 'a',
        "avi"@[1] == 'v',
        "avi"@[2] == 'i',
        "flv"@.len() == 3,
        "flv"@[0] == 'f',
        "flv"@[1] == 'l',
        "flv"@[2] == 'v',
        "mpg"@.len() == 3,
        "mpg"@[0] == 'm',
        "mpg"@[1] == 'p',
        "mpg"@[2] == 'g',
        "mpeg"@.len() == 4,
        "mpeg"@[0] == 'm',
        "mpeg"@[1] == 'p',
        "mpeg"@[2] == 'e',
        "mpeg"@[3] == 'g',
        "mpeg2"@.len() == 5,
        "mpeg2"@[0] == 'm',
        "mpeg2"@[1] == 'p',
        "mpeg2"@[2] == 'e',
        "mpeg2"@[3] == 'g',
        "mpeg2"@[4] == '2',
        "ts"@.len() == 2,
        "ts"@[0] == 't',
        "ts"@[1] == 's',
        "m2ts"@.len() == 4,
        "m2ts"@[0] == 'm',
        "m2ts"@[1] == '2',
        "m2ts"@[2] == 't',
        "m2ts"@[3] == 's',
        "mts"@.len() == 3,
        "mts"@[0] == 'm',
        "mts"@[1] == 't',
        "mts"@[2] == 's',
        "ogv"@.len() == 3,
        "ogv"@[0] == 'o',
        "ogv"@[1] == 'g',
        "ogv"@[2] == 'v',
        "ogg"@.len() == 3,
        "ogg"@[0] == 'o',
        "ogg"@[1] == 'g',
        "ogg"@[2] == 'g',
{
    reveal_strlit("mp4");
    reveal_strlit("m4v");
    reveal_strlit("mkv");
    reveal_strlit("matroska");
    reveal_strlit("mov");
    reveal_strlit("quicktime");
    reveal_strlit("webm");
    reveal_strlit("avi");
    reveal_strlit("flv");
    reveal_strlit("mpg");
    reveal_strlit("mpeg");
    reveal_strlit("mpeg2");
    reveal_strlit("ts");
    reveal_strlit("m2ts");
    reveal_strlit("mts");
    reveal_strlit("ogv");
    reveal_strlit("ogg");
}

/// True when the (lower-cased) extension is a recognized video format.
pub fn is_video_format(format: &str) -> (r: bool)
    ensures
        r == is_video_ext(lower(format@)),
{
    eq_lower(format, "mp4") || eq_lower(format, "m4v") || eq_lower(format, "mkv")
        || eq_lower(format, "mov") || eq_lower(format, "webm") || eq_lower(format, "avi")
        || eq_lower(format, "flv") || eq_lower(format, "mpg") || eq_lower(format, "mpeg")
        || eq_lower(format, "ts") || eq_lower(format, "m2ts") || eq_lower(format, "mts")
        || eq_lower(format, "ogv") || eq_lower(format, "ogg")
}

/// The codec used when producing the given target format; the H.264 family
/// is the default for any unrecognized extension, so the result is never
/// empty.
pub fn get_video_codec_for_format(format: &str) -> (r: String)
    ensures
        r@ == codec_for(lower(format@)),
        r@.len() > 0,
{
    proof {
        reveal_strlit("vp9");
        reveal_strlit("theora");
        reveal_strlit("mpeg2");
        reveal_strlit("mpeg4");
        reveal_strlit("h264");
    }
    if eq_lower(format, "webm") {
        String::from_str("vp9")
    } else if eq_lower(format, "ogv") || eq_lower(format, "ogg") {
        String::from_str("theora")
    } else if eq_lower(format, "mpg") || eq_lower(format, "mpeg") {
        String::from_str("mpeg2")
    } else if eq_lower(format, "avi") {
        String::from_str("mpeg4")
    } else {
        String::from_str("h264")
    }
}

/// Appends one tag to a list of output extensions.
fn push_tag(outs: &mut Vec<String>, tag: &str)
    ensures
        views_of(final(outs)@) =~= views_of(old(outs)@).push(tag@),
{
    outs.push(String::from_str(tag));
}

fn outputs_std_x() -> (r: Vec<String>)
    ensures
        views_of(r@) =~= outputs_std(),
{
    let mut v: Vec<String> = Vec::new();
    push_tag(&mut v, "mp4");
    push_tag(&mut v, "mkv");
    push_tag(&mut v, "mov");
    push_tag(&mut v, "webm");
    push_tag(&mut v, "avi");
    push_tag(&mut v, "flv");
    push_tag(&mut v, "mpg");
    push_tag(&mut v, "ts");
    push_tag(&mut v, "ogv");
    v
}

fn outputs_webm_x() -> (r: Vec<String>)
    ensures
        views_of(r@) =~= outputs_webm(),
{
    let mut v: Vec<String> = Vec::new();
    push_tag(&mut v, "mp4");
    push_tag(&mut v, "mkv");
    push_tag(&mut v, "mov");
    push_tag(&mut v, "avi");
    push_tag(&mut v, "flv");
    push_tag(&mut v, "mpg");
    push_tag(&mut v, "ts");
    push_tag(&mut v, "ogv");
    push_tag(&mut v, "webm");
    v
}

fn outputs_flv_x() -> (r: Vec<String>)
    ensures
        views_of(r@) =~= outputs_flv(),
{
    let mut v: Vec<String> = Vec::new();
    push_tag(&mut v, "mp4");
    push_tag(&mut v, "mkv");
    push_tag(&mut v, "mov");
    push_tag(&mut v, "avi");
    push_tag(&mut v, "webm");
    push_tag(&mut v, "mpg");
    push_tag(&mut v, "ts");
    push_tag(&mut v, "ogv");
    push_tag(&mut v, "flv");
    v
}

fn outputs_mpg_x() -> (r: Vec<String>)
    ensures
        views_of(r@) =~= outputs_mpg(),
{
    let mut v: Vec<String> = Vec::new();
    push_tag(&mut v, "mp4");
    push_tag(&mut v, "mkv");
    push_tag(&mut v, "mov");
    push_tag(&mut v, "avi");
    push_tag(&mut v, "webm");
    push_tag(&mut v, "flv");
    push_tag(&mut v, "ts");
    push_tag(&mut v, "ogv");
    push_tag(&mut v, "mpg");
    v
}

fn outputs_ts_x() -> (r: Vec<String>)
    ensures
        views_of(r@) =~= outputs_ts(),
{
    let mut v: Vec<String> = Vec::new();
    push_tag(&mut v, "mp4");
    push_tag(&mut v, "mkv");
    push_tag(&mut v, "mov");
    push_tag(&mut v, "avi");
    push_tag(&mut v, "webm");
    push_tag(&mut v, "mpg");
    push_tag(&mut v, "ogv");
    push_tag(&mut v, "ts");
    v
}

fn outputs_ogv_x() -> (r: Vec<String>)
    ensures
        views_of(r@) =~= outputs_ogv(),
{
    let mut v: Vec<String> = Vec::new();
    push_tag(&mut v, "mp4");
    push_tag(&mut v, "mkv");
    push_tag(&mut v, "mov");
    push_tag(&mut v, "avi");
    push_tag(&mut v, "webm");
    push_tag(&mut v, "ogv");
    v
}

/// The descriptor of a video extension: its canonical extension, container,
/// default codec, and the extensions it can be converted to. `None` exactly
/// for extensions that are not recognized video formats.
pub fn get_video_format_info(format: &str) -> (r: Option<VideoFormat>)
    ensures
        r is Some <==> is_video_info_ext(lower(format@)),
        r matches Some(v) ==> {
            &&& v.extension@ == video_ext_canon(lower(format@))
            &&& v.container@ == video_container(lower(format@))
            &&& v.codec@ == video_codec(lower(format@))
            &&& views_of(v.compatible_outputs@) == video_outputs(lower(format@))
        },
{
    proof {
        lemma_video_tag_facts();
    }
    if eq_lower(format, "mp4") || eq_lower(format, "m4v") {
        Some(VideoFormat {
            extension: String::from_str("mp4"),
            container: String::from_str("mp4"),
            codec: String::from_str("h264"),
            compatible_outputs: outputs_std_x(),
        })
    } else if eq_lower(format, "mkv") || eq_lower(format, "matroska") {
        Some(VideoFormat {
            extension: String::from_str("mkv"),
            container: String::from_str("matroska"),
            codec: String::from_str("h264"),
            compatible_outputs: outputs_std_x(),
        })
    } else if eq_lower(format, "mov") || eq_lower(format, "quicktime") {
        Some(VideoFormat {
            extension: String::from_str("mov"),
            container: String::from_str("mov"),
            codec: String::from_str("h264"),
            compatible_outputs: outputs_std_x(),
        })
    } else if eq_lower(format, "webm") {
        Some(VideoFormat {
            extension: String::from_str("webm"),
            container: String::from_str("webm"),
            codec: String::from_str("vp9"),
            compatible_outputs: outputs_webm_x(),
        })
    } else if eq_lower(format, "avi") {
        Some(VideoFormat {
            extension: String::from_str("avi"),
            container: String::from_str("avi"),
            codec: String::from_str("mpeg4"),
            compatible_outputs: outputs_std_x(),
        })
    } else if eq_lower(format, "flv") {
        Some(VideoFormat {
            extension: String::from_str("flv"),
            container: String::from_str("flv"),
            codec: String::from_str("h264"),
            compatible_outputs: outputs_flv_x(),
        })
    } else if eq_lower(format, "mpg") || eq_lower(format, "mpeg") || eq_lower(format, "mpeg2") {
        Some(VideoFormat {
            extension: String::from_str("mpg"),
            container: String::from_str("mpg"),
            codec: String::from_str("mpeg2"),
            compatible_outputs: outputs_mpg_x(),
        })
    } else if eq_lower(format, "ts") || eq_lower(format, "m2ts") || eq_lower(format, "mts") {
        Some(VideoFormat {
            extension: String::from_str("ts"),
            container: String::from_str("mpegts"),
            codec: String::from_str("h264"),
            compatible_outputs: outputs_ts_x(),
        })
    } else if eq_lower(format, "ogv") || eq_lower(format, "ogg") {
        Some(VideoFormat {
            extension: String::from_str("ogv"),
            container: String::from_str("ogg"),
            codec: String::from_str("theora"),
            compatible_outputs: outputs_ogv_x(),
        })
    } else {
        None
    }
}

/// Every extension accepted by the catalog, in its fixed order.
pub open spec fn all_video_formats() -> Seq<Seq<char>> {
    seq![
        "mp4"@, "m4v"@, "mkv"@, "mov"@, "webm"@, "avi"@, "flv"@, "mpg"@, "mpeg"@,
        "ts"@, "m2ts"@, "mts"@, "ogv"@, "ogg"@,
    ]
}

/// Lists every video extension the catalog accepts.
pub fn get_all_video_formats() -> (r: Vec<String>)
    ensures
        views_of(r@) == all_video_formats(),
{
    let mut v: Vec<String> = Vec::new();
    push_tag(&mut v, "mp4");
    push_tag(&mut v, "m4v");
    push_tag(&mut v, "mkv");
    push_tag(&mut v, "mov");
    push_tag(&mut v, "webm");
    push_tag(&mut v, "avi");
    push_tag(&mut v, "flv");
    push_tag(&mut v, "mpg");
    push_tag(&mut v, "mpeg");
    push_tag(&mut v, "ts");
    push_tag(&mut v, "m2ts");
    push_tag(&mut v, "mts");
    push_tag(&mut v, "ogv");
    push_tag(&mut v, "ogg");
    assert(views_of(v@) =~= all_video_formats());
    v
}

/// Codec choice is total: every extension string, recognized or not,
/// yields a non-empty codec name; the choice never fails.
pub proof fn lemma_codec_total(s: Seq<char>)
    ensures
        codec_for(s).len() > 0,
{
    reveal_strlit("vp9");
    reveal_strlit("theora");
    reveal_strlit("mpeg2");
    reveal_strlit("mpeg4");
    reveal_strlit("h264");
}

/// The catalog is internally consistent: every extension listed as a
/// compatible output of some descriptor is itself a recognized video
/// format, so it independently resolves to a descriptor and a codec.
pub proof fn lemma_catalog_outputs_resolve(s: Seq<char>, i: int)
    requires
        is_video_info_ext(s),
        0 <= i < video_outputs(s).len(),
    ensures
        is_video_ext(video_outputs(s)[i]),
{
}

/// The descriptor's default codec agrees with the codec chosen for its
/// canonical extension: the catalog is the single source of codec names.
pub proof fn lemma_descriptor_codec_agrees(s: Seq<char>)
    requires
        is_video_info_ext(s),
    ensures
        video_codec(s) == codec_for(video_ext_canon(s)),
{
    lemma_video_tag_facts();
}

} // verus!
