use cnvrt::error::ConversionError;
use cnvrt::transcoder::{convert_video, transcode_outcome, VideoTranscoder};

#[test]
fn argument_list_for_webm() {
    let t = VideoTranscoder::new("in.mp4", "out.webm", "WEBM");
    assert_eq!(t.target_format, "webm");
    assert_eq!(
        t.transcode_args(),
        vec![
            "-i", "in.mp4", "-y", "-c:v", "vp9", "-b:v", "5000k", "-preset", "medium", "-c:a",
            "libopus", "-b:a", "128k", "out.webm"
        ]
    );
}

#[test]
fn argument_list_for_mp4_default_codecs() {
    let t = VideoTranscoder::new("clip.mov", "clip.mp4", "mp4");
    assert_eq!(
        t.transcode_args(),
        vec![
            "-i", "clip.mov", "-y", "-c:v", "h264", "-b:v", "5000k", "-preset", "medium",
            "-c:a", "aac", "-b:a", "128k", "clip.mp4"
        ]
    );
}

#[test]
fn options_override_defaults() {
    let t = VideoTranscoder::new("a.avi", "b.avi", "avi")
        .with_bitrate("2500k")
        .with_preset("fast");
    let args = t.transcode_args();
    assert_eq!(args[4], "mpeg4");
    assert_eq!(args[6], "2500k");
    assert_eq!(args[8], "fast");
}

#[test]
fn convert_video_checks_the_target() {
    let t = convert_video("in.mkv", "out.ogv", "ogv").unwrap();
    assert_eq!(t.preset, "medium");
    assert_eq!(t.bitrate, "5000k");
    assert_eq!(t.target_format, "ogv");

    let err = convert_video("in.mkv", "out.png", "png").unwrap_err();
    assert!(matches!(err, ConversionError::UnsupportedFormat(_)));
    assert_eq!(err.message(), "Unsupported format: png");
}

#[test]
fn exit_status_mapping() {
    assert!(transcode_outcome(Ok(true)).is_ok());

    let failed = transcode_outcome(Ok(false)).unwrap_err();
    assert_eq!(
        failed.message(),
        "Image error: FFmpeg transcoding failed. The file format may not be supported."
    );

    let spawn = transcode_outcome(Err("No such file or directory".to_string())).unwrap_err();
    assert_eq!(
        spawn.message(),
        "Image error: Failed to run FFmpeg: No such file or directory"
    );
}
