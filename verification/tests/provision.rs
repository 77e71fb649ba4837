use cnvrt::error::ProvisionError;
use cnvrt::ffmpeg_manager::{
    archive_kind, ffmpeg_binary_name, get_ffmpeg_dir, get_ffmpeg_download_url, get_ffmpeg_path,
    is_ffmpeg_available, Arch, ArchiveKind, BinaryProvisioner, Os, ProvisionAction,
    ProvisionEvent, ProvisionState,
};
use cnvrt::models::ConversionResult;
use cnvrt::transcoder::provision_error_to_conversion;

#[test]
fn cache_paths_per_platform() {
    assert_eq!(get_ffmpeg_dir("/home/u/.cache"), "/home/u/.cache/cnvrt");
    assert_eq!(ffmpeg_binary_name(Os::Linux), "ffmpeg");
    assert_eq!(ffmpeg_binary_name(Os::Windows), "ffmpeg.exe");
    assert_eq!(get_ffmpeg_path("/home/u/.cache", Os::Linux), "/home/u/.cache/cnvrt/ffmpeg");
    assert_eq!(get_ffmpeg_path("C:/Users/u/cache", Os::Windows), "C:/Users/u/cache/cnvrt/ffmpeg.exe");
}

#[test]
fn availability_is_cache_or_system() {
    assert!(is_ffmpeg_available(true, false));
    assert!(is_ffmpeg_available(false, true));
    assert!(!is_ffmpeg_available(false, false));
}

#[test]
fn download_urls_per_platform() {
    let win = get_ffmpeg_download_url(Os::Windows, Arch::X86_64).unwrap();
    assert!(win.ends_with(".zip"));
    assert_eq!(archive_kind(&win), ArchiveKind::Zip);

    let linux = get_ffmpeg_download_url(Os::Linux, Arch::X86_64).unwrap();
    assert_eq!(
        linux,
        "https://johnvansickle.com/ffmpeg/releases/ffmpeg-release-amd64-static.tar.xz"
    );
    assert_eq!(archive_kind(&linux), ArchiveKind::TarXz);

    let mac = get_ffmpeg_download_url(Os::MacOs, Arch::Aarch64).unwrap();
    assert!(mac.ends_with(".tar.xz"));
    assert_eq!(archive_kind(&mac), ArchiveKind::TarXz);
    // The operating system alone decides among the published builds.
    assert_eq!(get_ffmpeg_download_url(Os::MacOs, Arch::Other), Some(mac));

    assert!(get_ffmpeg_download_url(Os::Other, Arch::X86_64).is_none());

    // A URL with neither archive suffix is installed as a bare file.
    assert_eq!(archive_kind("https://example.invalid/ffmpeg-bin"), ArchiveKind::Raw);
}

/// Drives one whole `ensure` run against a simulated machine, returning
/// the machine and how many downloads it asked for.
fn run_ensure(cached: bool, system: bool, fetch_ok: bool) -> (BinaryProvisioner, u32) {
    let mut m = BinaryProvisioner::new(Os::Linux, Arch::X86_64, "/home/u/.cache".to_string());
    let mut downloads: u32 = 0;
    assert!(matches!(m.next_action(), ProvisionAction::CheckCache));
    m.step(ProvisionEvent::CacheChecked(cached));
    if m.state == ProvisionState::CachedFound {
        return (m, downloads);
    }
    assert!(matches!(m.next_action(), ProvisionAction::CheckSystem));
    m.step(ProvisionEvent::SystemChecked(system));
    if m.state == ProvisionState::SystemFound || m.state == ProvisionState::Unavailable {
        return (m, downloads);
    }
    match m.next_action() {
        ProvisionAction::Fetch(url) => {
            downloads += 1;
            assert!(url.ends_with(".tar.xz"));
        },
        other => panic!("expected a fetch action, got {other:?}"),
    }
    m.step(ProvisionEvent::FetchFinished(fetch_ok));
    if m.state == ProvisionState::Unavailable {
        return (m, downloads);
    }
    assert!(matches!(
        m.next_action(),
        ProvisionAction::ExtractArchive(ArchiveKind::TarXz)
    ));
    m.step(ProvisionEvent::ExtractFinished(None));
    assert!(matches!(m.next_action(), ProvisionAction::SetExecutable));
    m.step(ProvisionEvent::PermissionSet(true));
    (m, downloads)
}

#[test]
fn provisioning_is_idempotent_through_the_cache() {
    // First run: empty cache, no system binary, working network.
    let (m1, downloads1) = run_ensure(false, false, true);
    assert_eq!(m1.state, ProvisionState::Ready);
    assert_eq!(downloads1, 1);
    assert_eq!(m1.binary_handle().as_deref(), Some("/home/u/.cache/cnvrt/ffmpeg"));

    // The successful run installed the binary into the cache, so the
    // second run finds it and short-circuits without downloading.
    let (m2, downloads2) = run_ensure(true, false, true);
    assert_eq!(m2.state, ProvisionState::CachedFound);
    assert_eq!(downloads2, 0);
    assert_eq!(m2.binary_handle().as_deref(), Some("/home/u/.cache/cnvrt/ffmpeg"));

    assert_eq!(downloads1 + downloads2, 1);
}

#[test]
fn system_binary_short_circuits() {
    let (m, downloads) = run_ensure(false, true, true);
    assert_eq!(m.state, ProvisionState::SystemFound);
    assert_eq!(downloads, 0);
    assert_eq!(m.binary_handle().as_deref(), Some("ffmpeg"));
}

#[test]
fn no_network_and_no_binary_fails_without_invocation() {
    let (m, _) = run_ensure(false, false, false);
    assert_eq!(m.state, ProvisionState::Unavailable);
    assert!(m.binary_handle().is_none());
    let cause = match m.next_action() {
        ProvisionAction::Fail(c) => c,
        other => panic!("expected a failure action, got {other:?}"),
    };
    assert_eq!(cause, ProvisionError::DownloadFailed);

    // The failure surfaces as an unsuccessful outcome with a
    // provisioning-related message, and no output path.
    let err = provision_error_to_conversion(&cause);
    let outcome = ConversionResult::of("id-7".to_string(), "mp4", "webm", Err(err));
    assert!(!outcome.success);
    assert!(outcome.message.contains("Failed to download FFmpeg"));
    assert!(outcome.output_path.is_none());
}

#[test]
fn unsupported_platform_fails_before_any_download() {
    let mut m = BinaryProvisioner::new(Os::Other, Arch::Other, "/c".to_string());
    m.step(ProvisionEvent::CacheChecked(false));
    m.step(ProvisionEvent::SystemChecked(false));
    assert_eq!(m.state, ProvisionState::Unavailable);
    assert!(matches!(
        m.next_action(),
        ProvisionAction::Fail(ProvisionError::UnsupportedPlatform)
    ));
    assert_eq!(
        ProvisionError::UnsupportedPlatform.message(),
        "Unsupported platform for FFmpeg download"
    );
}

#[test]
fn extraction_failure_is_recorded() {
    let mut m = BinaryProvisioner::new(Os::Linux, Arch::X86_64, "/c".to_string());
    m.step(ProvisionEvent::CacheChecked(false));
    m.step(ProvisionEvent::SystemChecked(false));
    m.step(ProvisionEvent::FetchFinished(true));
    m.step(ProvisionEvent::ExtractFinished(Some(ProvisionError::MissingEntry)));
    assert_eq!(m.state, ProvisionState::Unavailable);
    assert!(matches!(
        m.next_action(),
        ProvisionAction::Fail(ProvisionError::MissingEntry)
    ));
}
