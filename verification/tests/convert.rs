use cnvrt::error::ConversionError;
use cnvrt::image_convert::{dispatch_bytes, route_conversion, DispatchOutcome, Route};
use cnvrt::models::{ConversionResult, SharedState};
use cnvrt::pcx::convert_pcx;
use cnvrt::utils::convert_any_image_format;

fn sample_png(w: u32, h: u32) -> Vec<u8> {
    let img = image::RgbImage::from_fn(w, h, |x, y| {
        image::Rgb([(x % 256) as u8, (y % 256) as u8, 128])
    });
    let mut cur = std::io::Cursor::new(Vec::new());
    image::DynamicImage::ImageRgb8(img)
        .write_to(&mut cur, image::ImageFormat::Png)
        .unwrap();
    cur.into_inner()
}

fn sample_png_rgba(w: u32, h: u32) -> Vec<u8> {
    let img = image::RgbaImage::from_fn(w, h, |x, y| {
        image::Rgba([(x % 256) as u8, (y % 256) as u8, 128, 255])
    });
    let mut cur = std::io::Cursor::new(Vec::new());
    image::DynamicImage::ImageRgba8(img)
        .write_to(&mut cur, image::ImageFormat::Png)
        .unwrap();
    cur.into_inner()
}

fn dimensions_of(bytes: &[u8]) -> (u32, u32) {
    let img = image::load_from_memory(bytes).unwrap();
    (img.width(), img.height())
}

#[test]
fn every_image_target_round_trips_dimensions() {
    let png = sample_png(10, 10);
    let targets = ["png", "jpg", "jpeg", "webp", "bmp", "gif", "tiff", "ppm", "pgm", "pbm"];
    for t in targets {
        let out = convert_any_image_format(&png, t)
            .unwrap_or_else(|e| panic!("converting to {t} failed: {:?}", e.message()));
        assert_eq!(dimensions_of(&out), (10, 10), "dimensions after {t}");
    }
    // The ICO codec works on images with an alpha channel.
    let png_rgba = sample_png_rgba(10, 10);
    let out = convert_any_image_format(&png_rgba, "ico").unwrap();
    assert_eq!(dimensions_of(&out), (10, 10), "dimensions after ico");
}

#[test]
fn conversion_actually_reencodes() {
    let png = sample_png(10, 10);
    let out = convert_any_image_format(&png, "jpeg").unwrap();
    assert_eq!(image::guess_format(&out).unwrap(), image::ImageFormat::Jpeg);
    let out = convert_any_image_format(&png, "bmp").unwrap();
    assert_eq!(image::guess_format(&out).unwrap(), image::ImageFormat::Bmp);
}

#[test]
fn png_webp_png_keeps_dimensions() {
    let png = sample_png(10, 10);
    let webp = convert_any_image_format(&png, "webp").unwrap();
    assert_eq!(image::guess_format(&webp).unwrap(), image::ImageFormat::WebP);
    let back = convert_any_image_format(&webp, "png").unwrap();
    assert_eq!(dimensions_of(&back), (10, 10));
}

#[test]
fn unsupported_target_is_rejected() {
    let png = sample_png(4, 4);
    let err = convert_any_image_format(&png, "xyz").unwrap_err();
    assert!(matches!(err, ConversionError::UnsupportedFormat(_)));
    assert_eq!(err.message(), "Unsupported format: xyz");
}

#[test]
fn undecodable_input_is_an_image_error() {
    let garbage = vec![1u8, 2, 3, 4, 5];
    let err = convert_any_image_format(&garbage, "png").unwrap_err();
    assert!(matches!(err, ConversionError::ImageError(_)));
}

#[test]
fn routing_precedence() {
    assert_eq!(route_conversion("png", "webp"), Route::DedicatedImage);
    assert_eq!(route_conversion("PCX", "png"), Route::DedicatedImage);
    assert_eq!(route_conversion("MP4", "mkv"), Route::Video);
    assert_eq!(route_conversion("ogg", "mp4"), Route::Video);
    assert_eq!(route_conversion("xyz", "png"), Route::Unsupported);
}

#[test]
fn gif_target_always_routes_generic() {
    // Sources with a dedicated branch still take the generic path for a
    // GIF target.
    assert_eq!(route_conversion("png", "gif"), Route::GenericImage);
    assert_eq!(route_conversion("pcx", "GIF"), Route::GenericImage);
    assert_eq!(route_conversion("mp4", "gif"), Route::GenericImage);
    assert_eq!(route_conversion("xyz", "gif"), Route::GenericImage);
}

#[test]
fn dispatch_image_video_and_unknown() {
    let png = sample_png(6, 6);
    match dispatch_bytes(&png, "png", "webp") {
        DispatchOutcome::Converted(out) => assert_eq!(dimensions_of(&out), (6, 6)),
        other => panic!("expected a converted image, got {other:?}"),
    }
    assert!(matches!(
        dispatch_bytes(&png, "mp4", "webm"),
        DispatchOutcome::NeedsTranscode
    ));
    match dispatch_bytes(&png, "docx", "png") {
        DispatchOutcome::Failed(ConversionError::UnsupportedFormat(f)) => assert_eq!(f, "docx"),
        other => panic!("expected an unsupported-format failure, got {other:?}"),
    }
}

#[test]
fn dispatch_gif_target_ignores_source_tag() {
    // The generic path decodes by content, so even a source tag with no
    // dedicated branch converts when the target is the animated container.
    let png = sample_png(5, 5);
    match dispatch_bytes(&png, "xyz", "gif") {
        DispatchOutcome::Converted(out) => {
            assert_eq!(image::guess_format(&out).unwrap(), image::ImageFormat::Gif);
        },
        other => panic!("expected a converted image, got {other:?}"),
    }
}

#[test]
fn pcx_branch_converts_and_narrows_targets() {
    let png = sample_png(8, 8);
    let out = convert_pcx(&png, "webp").unwrap();
    assert_eq!(dimensions_of(&out), (8, 8));
    // The PCX branch has no ICO encoder, though the generic path does.
    let err = convert_pcx(&png, "ico").unwrap_err();
    assert!(matches!(err, ConversionError::UnsupportedFormat(_)));
    assert!(convert_any_image_format(&sample_png_rgba(8, 8), "ico").is_ok());
}

#[test]
fn error_messages_per_variant() {
    assert_eq!(
        ConversionError::FileNotFound("a.png".to_string()).message(),
        "File not found: a.png"
    );
    assert_eq!(
        ConversionError::UnsupportedFormat("xyz".to_string()).message(),
        "Unsupported format: xyz"
    );
    assert_eq!(ConversionError::IoError("broken pipe".to_string()).message(), "IO error: broken pipe");
    assert_eq!(ConversionError::ImageError("bad data".to_string()).message(), "Image error: bad data");
    assert_eq!(
        ConversionError::ConversionFailed("oops".to_string()).message(),
        "Conversion failed: oops"
    );
}

#[test]
fn outcome_of_success_and_failure() {
    let ok = ConversionResult::of(
        "id-1".to_string(),
        "png",
        "webp",
        Ok("/tmp/out.webp".to_string()),
    );
    assert!(ok.success);
    assert_eq!(ok.id, "id-1");
    assert_eq!(ok.message, "Successfully converted png to webp");
    assert_eq!(ok.output_path.as_deref(), Some("/tmp/out.webp"));

    let failed = ConversionResult::of(
        "id-2".to_string(),
        "docx",
        "png",
        Err(ConversionError::UnsupportedFormat("docx".to_string())),
    );
    assert!(!failed.success);
    assert_eq!(failed.message, "Unsupported format: docx");
    assert!(failed.output_path.is_none());
}

#[test]
fn outcome_of_path_prefixes_failures() {
    let ok = ConversionResult::of_path(
        "id-3".to_string(),
        "mp4",
        "webm",
        Ok("/tmp/out.webm".to_string()),
    );
    assert!(ok.success);
    assert_eq!(ok.message, "Successfully converted mp4 to webm");
    assert_eq!(ok.output_path.as_deref(), Some("/tmp/out.webm"));

    let failed = ConversionResult::of_path(
        "id-4".to_string(),
        "docx",
        "png",
        Err(ConversionError::UnsupportedFormat("docx".to_string())),
    );
    assert!(!failed.success);
    assert_eq!(failed.message, "Conversion error: Unsupported format: docx");
    assert!(failed.output_path.is_none());
}

#[test]
fn initial_file_slot_is_take_once() {
    let mut state = SharedState::new();
    assert!(state.get_initial_file().is_none());
    state.set_initial_file("/videos/in.mp4".to_string());
    assert_eq!(state.get_initial_file().as_deref(), Some("/videos/in.mp4"));
    assert!(state.get_initial_file().is_none());
}
