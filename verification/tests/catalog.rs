use cnvrt::formats::{
    get_all_video_formats, get_video_codec_for_format, get_video_format_info,
};
use cnvrt::utils::{get_supported_formats, is_image_format, is_supported_format, is_video_format};

const IMAGE_TAGS: [&str; 27] = [
    "png", "jpg", "jpeg", "webp", "bmp", "gif", "tiff", "ico", "ppm", "pgm", "pbm", "avif",
    "heic", "heif", "tga", "dds", "apng", "cur", "exr", "svg", "pdf", "psd", "psb", "fits",
    "dcm", "pcx", "jfif",
];

const VIDEO_TAGS: [&str; 14] = [
    "mp4", "m4v", "mkv", "mov", "webm", "avi", "flv", "mpg", "mpeg", "ts", "m2ts", "mts", "ogv",
    "ogg",
];

#[test]
fn video_format_membership() {
    for t in VIDEO_TAGS {
        assert!(is_video_format(t), "{t} should be a video format");
    }
    assert!(is_video_format("MP4"));
    assert!(is_video_format("WebM"));
    assert!(!is_video_format("png"));
    assert!(!is_video_format("matroska"));
    assert!(!is_video_format(""));
}

#[test]
fn image_format_membership() {
    for t in IMAGE_TAGS {
        assert!(is_image_format(t), "{t} should be an image format");
    }
    assert!(is_image_format("PNG"));
    assert!(is_image_format("JfIf"));
    assert!(!is_image_format("mp4"));
    assert!(!is_image_format("tif"));
    assert!(!is_image_format(""));
}

#[test]
fn supported_format_is_the_union() {
    assert!(is_supported_format("png"));
    assert!(is_supported_format("mp4"));
    assert!(is_supported_format("OGG"));
    assert!(!is_supported_format("docx"));
}

#[test]
fn image_and_video_sets_are_disjoint() {
    for t in IMAGE_TAGS {
        assert!(
            !(is_image_format(t) && is_video_format(t)),
            "{t} must not be in both sets"
        );
    }
    for t in VIDEO_TAGS {
        assert!(
            !(is_image_format(t) && is_video_format(t)),
            "{t} must not be in both sets"
        );
    }
}

#[test]
fn codec_choice_per_format() {
    assert_eq!(get_video_codec_for_format("webm"), "vp9");
    assert_eq!(get_video_codec_for_format("WEBM"), "vp9");
    assert_eq!(get_video_codec_for_format("ogv"), "theora");
    assert_eq!(get_video_codec_for_format("ogg"), "theora");
    assert_eq!(get_video_codec_for_format("mpg"), "mpeg2");
    assert_eq!(get_video_codec_for_format("mpeg"), "mpeg2");
    assert_eq!(get_video_codec_for_format("avi"), "mpeg4");
    assert_eq!(get_video_codec_for_format("flv"), "h264");
    assert_eq!(get_video_codec_for_format("ts"), "h264");
    assert_eq!(get_video_codec_for_format("mp4"), "h264");
}

#[test]
fn codec_choice_is_total() {
    for t in ["", "xyz", "document", "MP4", "....", "ffmpeg"] {
        let codec = get_video_codec_for_format(t);
        assert!(!codec.is_empty(), "codec for {t:?} must not be empty");
    }
    assert_eq!(get_video_codec_for_format("unknown-thing"), "h264");
}

#[test]
fn video_descriptor_fields() {
    let info = get_video_format_info("mkv").unwrap();
    assert_eq!(info.extension, "mkv");
    assert_eq!(info.container, "matroska");
    assert_eq!(info.codec, "h264");
    assert_eq!(
        info.compatible_outputs,
        vec!["mp4", "mkv", "mov", "webm", "avi", "flv", "mpg", "ts", "ogv"]
    );

    let info = get_video_format_info("TS").unwrap();
    assert_eq!(info.extension, "ts");
    assert_eq!(info.container, "mpegts");
    assert_eq!(info.codec, "h264");

    let info = get_video_format_info("ogg").unwrap();
    assert_eq!(info.extension, "ogv");
    assert_eq!(info.container, "ogg");
    assert_eq!(info.codec, "theora");
    assert_eq!(
        info.compatible_outputs,
        vec!["mp4", "mkv", "mov", "avi", "webm", "ogv"]
    );
}

#[test]
fn video_descriptor_aliases_and_unknowns() {
    assert!(get_video_format_info("matroska").is_some());
    assert!(get_video_format_info("quicktime").is_some());
    assert!(get_video_format_info("mpeg2").is_some());
    assert!(get_video_format_info("png").is_none());
    assert!(get_video_format_info("").is_none());
}

#[test]
fn all_video_formats_list() {
    assert_eq!(
        get_all_video_formats(),
        vec![
            "mp4", "m4v", "mkv", "mov", "webm", "avi", "flv", "mpg", "mpeg", "ts", "m2ts",
            "mts", "ogv", "ogg"
        ]
    );
}

#[test]
fn supported_formats_per_source_class() {
    assert_eq!(
        get_supported_formats("mp4"),
        vec!["mp4", "mkv", "mov", "webm", "avi", "flv", "mpg", "ts", "ogv"]
    );
    let image_targets =
        vec!["png", "jpg", "jpeg", "webp", "bmp", "gif", "tiff", "ico", "ppm", "pgm", "pbm"];
    assert_eq!(get_supported_formats("png"), image_targets);
    // Any non-video source, recognized or not, is offered the image list.
    assert_eq!(get_supported_formats("xyz"), image_targets);
}

#[test]
fn every_compatible_output_resolves() {
    for fmt in get_all_video_formats() {
        let info = get_video_format_info(&fmt).unwrap();
        for out in &info.compatible_outputs {
            assert!(
                is_video_format(out),
                "output {out} of {fmt} must itself be a video format"
            );
            assert!(get_video_format_info(out).is_some());
            assert!(!get_video_codec_for_format(out).is_empty());
        }
    }
}
