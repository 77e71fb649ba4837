//! The encoder-binary provisioner: where the binary lives in the per-user
//! cache, which archive is downloaded for which platform, and the state
//! machine that takes one provisioning run from nothing-resolved to a
//! usable binary or to a terminal failure. The filesystem probes, the
//! network fetch and the process spawn happen outside this library; each
//! run reports its observations as events and is told the next action.

use vstd::prelude::*;
use crate::error::ProvisionError;
use crate::text::{ends_with, str_ends_with};

verus! {

/// The operating systems the provisioner distinguishes.
#[derive(Debug, Clone, Copy, PartialEq, Eq, Structural)]
pub enum Os {
    Windows,
    MacOs,
    Linux,
    Other,
}

/// The processor architectures the provisioner distinguishes.
#[derive(Debug, Clone, Copy, PartialEq, Eq, Structural)]
pub enum Arch {
    X86_64,
    Aarch64,
    Other,
}

/// How the downloaded archive is unpacked: a zip archive, an xz-compressed
/// tar archive, or a bare file that only needs to be moved into place.
#[derive(Debug, Clone, Copy, PartialEq, Eq, Structural)]
pub enum ArchiveKind {
    Zip,
    TarXz,
    Raw,
}

/// The encoder binary's file name on the given system.
pub open spec fn binary_name_of(os: Os) -> Seq<char> {
    if os == Os::Windows {
        "ffmpeg.exe"@
    } else {
        "ffmpeg"@
    }
}

/// The binary's file name: the bare name with the executable suffix the
/// system expects.
pub fn ffmpeg_binary_name(os: Os) -> (r: String)
    ensures
        r@ == binary_name_of(os),
{
    match os {
        Os::Windows => String::from_str("ffmpeg.exe"),
        _ => String::from_str("ffmpeg"),
    }
}

/// The per-user cache directory that holds the binary, under the given
/// cache root.
pub fn get_ffmpeg_dir(cache_root: &str) -> (r: String)
    ensures
        r@ == cache_root@ + "/cnvrt"@,
{
    String::from_str(cache_root).concat("/cnvrt")
}

/// The full path of the cached binary under the given cache root.
pub fn get_ffmpeg_path(cache_root: &str, os: Os) -> (r: String)
    ensures
        r@ == cache_root@ + "/cnvrt/"@ + binary_name_of(os),
{
    String::from_str(cache_root).concat("/cnvrt/").concat(ffmpeg_binary_name(os).as_str())
}

/// The binary counts as available when it sits in the cache or a
/// system-installed binary answers a version query.
pub fn is_ffmpeg_available(cached_present: bool, system_responds: bool) -> (r: bool)
    ensures
        r == (cached_present || system_responds),
{
    cached_present || system_responds
}

/// The archive published for each platform: a zip archive on Windows and
/// an xz-compressed tar on the others. Chosen by operating system and
/// architecture alone; among the published builds the operating system
/// decides and the architecture adds no further split, and systems with
/// no published build get none.
pub open spec fn download_url_of(os: Os, arch: Arch) -> Option<Seq<char>> {
    match os {
        Os::Windows => Some(
            "https://github.com/ffbinaries/ffbinaries-prebuilt/releases/download/v6.1/ffmpeg-6.1-win-64.zip"@,
        ),
        Os::MacOs => Some("https://evermeet.cx/ffmpeg/ffmpeg-7.0.1.tar.xz"@),
        Os::Linux => Some(
            "https://johnvansickle.com/ffmpeg/releases/ffmpeg-release-amd64-static.tar.xz"@,
        ),
        Os::Other => None,
    }
}

/// True when a download is published for the platform.
pub open spec fn has_download(os: Os, arch: Arch) -> bool {
    download_url_of(os, arch) is Some
}

/// The download URL for the platform, exactly as `download_url_of` says;
/// `None` for a platform with no published build.
pub fn get_ffmpeg_download_url(os: Os, arch: Arch) -> (r: Option<String>)
    ensures
        r is Some <==> has_download(os, arch),
        r matches Some(u) ==> Some(u@) == download_url_of(os, arch),
{
    match os {
        Os::Windows => Some(
            String::from_str(
                "https://github.com/ffbinaries/ffbinaries-prebuilt/releases/download/v6.1/ffmpeg-6.1-win-64.zip",
            ),
        ),
        Os::MacOs => Some(String::from_str("https://evermeet.cx/ffmpeg/ffmpeg-7.0.1.tar.xz")),
        Os::Linux => Some(
            String::from_str(
                "https://johnvansickle.com/ffmpeg/releases/ffmpeg-release-amd64-static.tar.xz",
            ),
        ),
        Os::Other => None,
    }
}

/// How an archive at the given URL is unpacked, judged by its suffix.
pub open spec fn archive_kind_of(url: Seq<char>) -> ArchiveKind {
    if ends_with(url, ".zip"@) {
        ArchiveKind::Zip
    } else if ends_with(url, ".tar.xz"@) {
        ArchiveKind::TarXz
    } else {
        ArchiveKind::Raw
    }
}

/// Judges an archive URL by its suffix, as `archive_kind_of` says.
pub fn archive_kind(url: &str) -> (r: ArchiveKind)
    ensures
        r == archive_kind_of(url@),
{
    if str_ends_with(url, ".zip") {
        ArchiveKind::Zip
    } else if str_ends_with(url, ".tar.xz") {
        ArchiveKind::TarXz
    } else {
        ArchiveKind::Raw
    }
}

/// Where one provisioning run stands.
#[derive(Debug, Clone, Copy, PartialEq, Eq, Structural)]
pub enum ProvisionState {
    /// Nothing has been checked yet.
    Unresolved,
    /// The cache was checked and is empty; the system check is pending.
    CacheMissed,
    /// The cached binary was found: resolved, nothing to download.
    CachedFound,
    /// A system-installed binary answered: resolved, nothing to download.
    SystemFound,
    /// Both checks missed; the archive is being fetched.
    Downloading,
    /// The archive was fetched; extraction is pending.
    Fetched,
    /// The binary was extracted; the executable permission is pending.
    Extracted,
    /// The binary sits in the cache, executable: resolved.
    Ready,
    /// The run failed; `failure` names the cause.
    Unavailable,
}

/// What one provisioning run observed, reported by the caller.
#[derive(Debug, Clone, Copy)]
pub enum ProvisionEvent {
    /// Whether the cached binary exists.
    CacheChecked(bool),
    /// Whether a system-installed binary answered a version query.
    SystemChecked(bool),
    /// Whether the archive was fetched.
    FetchFinished(bool),
    /// `None` when the binary was extracted from the archive, otherwise
    /// the extraction failure.
    ExtractFinished(Option<ProvisionError>),
    /// Whether the executable permission was set.
    PermissionSet(bool),
}

/// What the caller must do next for one provisioning run.
#[derive(Debug, Clone)]
pub enum ProvisionAction {
    /// Look for the cached binary.
    CheckCache,
    /// Ask a system-installed binary for its version.
    CheckSystem,
    /// Fetch the archive at this URL.
    Fetch(String),
    /// Unpack the fetched archive.
    ExtractArchive(ArchiveKind),
    /// Make the extracted binary executable.
    SetExecutable,
    /// The run is resolved: use the binary at this path.
    UseBinary(String),
    /// The run failed for this cause.
    Fail(ProvisionError),
}

/// The transition function of one provisioning run.
pub open spec fn provision_step(s: ProvisionState, e: ProvisionEvent, has_url: bool) -> ProvisionState {
    match (s, e) {
        (ProvisionState::Unresolved, ProvisionEvent::CacheChecked(b)) => if b {
            ProvisionState::CachedFound
        } else {
            ProvisionState::CacheMissed
        },
        (ProvisionState::CacheMissed, ProvisionEvent::SystemChecked(b)) => if b {
            ProvisionState::SystemFound
        } else if has_url {
            ProvisionState::Downloading
        } else {
            ProvisionState::Unavailable
        },
        (ProvisionState::Downloading, ProvisionEvent::FetchFinished(b)) => if b {
            ProvisionState::Fetched
        } else {
            ProvisionState::Unavailable
        },
        (ProvisionState::Fetched, ProvisionEvent::ExtractFinished(o)) => if o is None {
            ProvisionState::Extracted
        } else {
            ProvisionState::Unavailable
        },
        (ProvisionState::Extracted, ProvisionEvent::PermissionSet(b)) => if b {
            ProvisionState::Ready
        } else {
            ProvisionState::Unavailable
        },
        _ => s,
    }
}

/// The failure recorded by the transition, when it fails.
pub open spec fn provision_failure(
    s: ProvisionState,
    f: Option<ProvisionError>,
    e: ProvisionEvent,
    has_url: bool,
) -> Option<ProvisionError> {
    match (s, e) {
        (ProvisionState::CacheMissed, ProvisionEvent::SystemChecked(b)) => if !b && !has_url {
            Some(ProvisionError::UnsupportedPlatform)
        } else {
            f
        },
        (ProvisionState::Downloading, ProvisionEvent::FetchFinished(b)) => if !b {
            Some(ProvisionError::DownloadFailed)
        } else {
            f
        },
        (ProvisionState::Fetched, ProvisionEvent::ExtractFinished(o)) => match o {
            Some(cause) => Some(cause),
            None => f,
        },
        (ProvisionState::Extracted, ProvisionEvent::PermissionSet(b)) => if !b {
            Some(ProvisionError::PermissionFailed)
        } else {
            f
        },
        _ => f,
    }
}

/// One provisioning run over one binary resource.
#[derive(Debug, Clone)]
pub struct BinaryProvisioner {
    pub os: Os,
    pub arch: Arch,
    pub cache_root: String,
    pub state: ProvisionState,
    pub failure: Option<ProvisionError>,
}

impl BinaryProvisioner {
    /// The machine's well-formedness: a failure cause is recorded exactly
    /// in the failed state, and the download states are entered only on
    /// platforms with a published build.
    pub open spec fn wf(&self) -> bool {
        &&& (self.state is Unavailable <==> self.failure is Some)
        &&& ((self.state is Downloading || self.state is Fetched) ==> has_download(
            self.os,
            self.arch,
        ))
    }

    /// A fresh run: nothing checked, nothing failed.
    pub fn new(os: Os, arch: Arch, cache_root: String) -> (r: BinaryProvisioner)
        ensures
            r.os == os,
            r.arch == arch,
            r.cache_root == cache_root,
            r.state == ProvisionState::Unresolved,
            r.failure is None,
            r.wf(),
    {
        BinaryProvisioner { os, arch, cache_root, state: ProvisionState::Unresolved, failure: None }
    }

    /// Feeds one observation into the run: the state advances exactly as
    /// `provision_step` says, and the failure cause is recorded exactly as
    /// `provision_failure` says.
    pub fn step(&mut self, e: ProvisionEvent)
        requires
            old(self).wf(),
        ensures
            final(self).os == old(self).os,
            final(self).arch == old(self).arch,
            final(self).cache_root == old(self).cache_root,
            final(self).state == provision_step(
                old(self).state,
                e,
                has_download(old(self).os, old(self).arch),
            ),
            final(self).failure == provision_failure(
                old(self).state,
                old(self).failure,
                e,
                has_download(old(self).os, old(self).arch),
            ),
            final(self).wf(),
    {
        let has_url = get_ffmpeg_download_url(self.os, self.arch).is_some();
        match (self.state, e) {
            (ProvisionState::Unresolved, ProvisionEvent::CacheChecked(b)) => {
                self.state = if b {
                    ProvisionState::CachedFound
                } else {
                    ProvisionState::CacheMissed
                };
            },
            (ProvisionState::CacheMissed, ProvisionEvent::SystemChecked(b)) => {
                if b {
                    self.state = ProvisionState::SystemFound;
                } else if has_url {
                    self.state = ProvisionState::Downloading;
                } else {
                    self.state = ProvisionState::Unavailable;
                    self.failure = Some(ProvisionError::UnsupportedPlatform);
                }
            },
            (ProvisionState::Downloading, ProvisionEvent::FetchFinished(b)) => {
                if b {
                    self.state = ProvisionState::Fetched;
                } else {
                    self.state = ProvisionState::Unavailable;
                    self.failure = Some(ProvisionError::DownloadFailed);
                }
            },
            (ProvisionState::Fetched, ProvisionEvent::ExtractFinished(o)) => {
                match o {
                    None => {
                        self.state = ProvisionState::Extracted;
                    },
                    Some(err) => {
                        self.state = ProvisionState::Unavailable;
                        self.failure = Some(err);
                    },
                }
            },
            (ProvisionState::Extracted, ProvisionEvent::PermissionSet(b)) => {
                if b {
                    self.state = ProvisionState::Ready;
                } else {
                    self.state = ProvisionState::Unavailable;
                    self.failure = Some(ProvisionError::PermissionFailed);
                }
            },
            _ => {},
        }
    }

    /// What the caller must do next, given where the run stands.
    pub fn next_action(&self) -> (r: ProvisionAction)
        requires
            self.wf(),
        ensures
            self.state is Unresolved ==> r is CheckCache,
            self.state is CacheMissed ==> r is CheckSystem,
            self.state is Downloading ==> (r matches ProvisionAction::Fetch(u) && Some(u@)
                == download_url_of(self.os, self.arch)),
            self.state is Fetched ==> (r matches ProvisionAction::ExtractArchive(k) && Some(k)
                == spec_archive_kind(download_url_of(self.os, self.arch))),
            self.state is Extracted ==> r is SetExecutable,
            self.state is CachedFound || self.state is Ready ==> (r matches
                ProvisionAction::UseBinary(p) && p@ == self.cache_root@ + "/cnvrt/"@
                + binary_name_of(self.os)),
            self.state is SystemFound ==> (r matches ProvisionAction::UseBinary(p) && p@
                == "ffmpeg"@),
            self.state is Unavailable ==> (r matches ProvisionAction::Fail(c) && Some(c)
                == self.failure),
    {
        match self.state {
            ProvisionState::Unresolved => ProvisionAction::CheckCache,
            ProvisionState::CacheMissed => ProvisionAction::CheckSystem,
            ProvisionState::Downloading => {
                match get_ffmpeg_download_url(self.os, self.arch) {
                    Some(u) => ProvisionAction::Fetch(u),
                    None => vstd::pervasive::unreached(),
                }
            },
            ProvisionState::Fetched => {
                match get_ffmpeg_download_url(self.os, self.arch) {
                    Some(u) => ProvisionAction::ExtractArchive(archive_kind(u.as_str())),
                    None => vstd::pervasive::unreached(),
                }
            },
            ProvisionState::Extracted => ProvisionAction::SetExecutable,
            ProvisionState::CachedFound | ProvisionState::Ready => ProvisionAction::UseBinary(
                get_ffmpeg_path(self.cache_root.as_str(), self.os),
            ),
            ProvisionState::SystemFound => ProvisionAction::UseBinary(String::from_str("ffmpeg")),
            ProvisionState::Unavailable => {
                match &self.failure {
                    Some(c) => ProvisionAction::Fail(c.clone()),
                    None => vstd::pervasive::unreached(),
                }
            },
        }
    }

    /// The resolved binary, present exactly in the three resolved states:
    /// the cached path when the cache holds it (found or just installed),
    /// the bare name when the system binary answers.
    pub fn binary_handle(&self) -> (r: Option<String>)
        ensures
            r is Some <==> (self.state is CachedFound || self.state is Ready || self.state
                is SystemFound),
            (self.state is CachedFound || self.state is Ready) ==> (r matches Some(p) && p@
                == self.cache_root@ + "/cnvrt/"@ + binary_name_of(self.os)),
            self.state is SystemFound ==> (r matches Some(p) && p@ == "ffmpeg"@),
    {
        match self.state {
            ProvisionState::CachedFound | ProvisionState::Ready => Some(
                get_ffmpeg_path(self.cache_root.as_str(), self.os),
            ),
            ProvisionState::SystemFound => Some(String::from_str("ffmpeg")),
            _ => None,
        }
    }
}

/// The archive kind of an optional URL.
pub open spec fn spec_archive_kind(u: Option<Seq<char>>) -> Option<ArchiveKind> {
    match u {
        Some(url) => Some(archive_kind_of(url)),
        None => None,
    }
}

/// The state a whole `ensure` run ends in, folded from `provision_step`:
/// the cache is checked first, then the system binary, and only when both
/// miss is the archive fetched, unpacked, and made executable.
pub open spec fn ensure_run(
    cached: bool,
    system: bool,
    has_url: bool,
    fetch_ok: bool,
    extract_err: Option<ProvisionError>,
    perm_ok: bool,
) -> ProvisionState {
    let s1 = provision_step(ProvisionState::Unresolved, ProvisionEvent::CacheChecked(cached), has_url);
    if s1 != ProvisionState::CacheMissed {
        s1
    } else {
        let s2 = provision_step(s1, ProvisionEvent::SystemChecked(system), has_url);
        if s2 != ProvisionState::Downloading {
            s2
        } else {
            let s3 = provision_step(s2, ProvisionEvent::FetchFinished(fetch_ok), has_url);
            if s3 != ProvisionState::Fetched {
                s3
            } else {
                let s4 = provision_step(s3, ProvisionEvent::ExtractFinished(extract_err), has_url);
                if s4 != ProvisionState::Extracted {
                    s4
                } else {
                    provision_step(s4, ProvisionEvent::PermissionSet(perm_ok), has_url)
                }
            }
        }
    }
}

/// Whether a whole `ensure` run reaches the download at all: only when the
/// cache misses, the system binary misses, and a build is published.
pub open spec fn ensure_downloads(cached: bool, system: bool, has_url: bool) -> bool {
    !cached && !system && has_url
}

/// Provisioning is idempotent through the cache. On a machine with no
/// system-installed binary and an empty cache, the first run downloads
/// once and ends with the binary installed in the cache; a run that finds
/// the cache filled short-circuits to the cached binary and downloads
/// nothing. So two `ensure` calls in a row perform exactly one download
/// and fill exactly one cache entry.
pub proof fn lemma_ensure_idempotent()
    ensures
        ensure_downloads(false, false, true),
        ensure_run(false, false, true, true, None, true) == ProvisionState::Ready,
        !ensure_downloads(true, false, true),
        ensure_run(true, false, true, true, None, true) == ProvisionState::CachedFound,
{
}

/// A run that cannot download — no published build, or the fetch fails,
/// as on a machine without network access — and finds neither a cached
/// nor a system binary ends unavailable: it never reaches a resolved
/// state, so no binary handle exists and no encoder process can be run.
pub proof fn lemma_no_download_no_binary(
    has_url: bool,
    fetch_ok: bool,
    extract_err: Option<ProvisionError>,
    perm_ok: bool,
)
    requires
        !has_url || !fetch_ok,
    ensures
        ensure_run(false, false, has_url, fetch_ok, extract_err, perm_ok)
            == ProvisionState::Unavailable,
{
}

} // verus!
