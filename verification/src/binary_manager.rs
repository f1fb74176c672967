//! Finding and fetching the pattern-matching executable.
//!
//! The manager knows where a bundled copy of the executable lives, which
//! release archive holds it for a platform, and which member of an archive
//! is the executable. What it needs from the file system, the search path and
//! the network it is told.

use crate::archive::{
    listing_view, tar_gz_content, tar_gz_listing, tar_gz_names, tar_gz_read,
    zip_content, zip_listing, zip_names, zip_read,
};
use crate::paths::{join, joined};
use crate::text::{ends_with, has_suffix, str_eq, trim, trimmed};
use vstd::prelude::*;

verus! {

/// The release of the executable that is fetched.
pub const AST_GREP_VERSION: &'static str = "0.38.7";

/// Where releases of the executable are published.
pub const GITHUB_RELEASE_URL: &'static str =
    "https://github.com/ast-grep/ast-grep/releases/download";

/// The name of the directory, next to the running program, that holds the
/// bundled executable.
pub const BUNDLE_DIRECTORY: &'static str = "bundled_binaries";

/// Why the executable could not be had.
#[derive(Debug, Clone, Copy, PartialEq, Eq, Structural)]
pub enum BinaryErrorKind {
    /// The directory of the running program is not known.
    NoExecutableDirectory,
    /// No release exists for this operating system and architecture.
    UnsupportedPlatform,
    /// The release archive could not be fetched.
    Download,
    /// The archive is not readable or does not hold the executable.
    Extraction,
    /// The bundled copy could not be written.
    Io,
    /// An event arrived that the search was not waiting for.
    UnexpectedEvent,
}

/// A failure to find or fetch the executable.
#[derive(Debug, Clone)]
pub struct BinaryError {
    pub kind: BinaryErrorKind,
    pub message: String,
}

/// Where a resolved executable came from.
#[derive(Debug, Clone, Copy, PartialEq, Eq, Structural)]
pub enum BinarySource {
    System,
    Bundled,
    Downloaded,
}

/// A resolved executable.
#[derive(Debug, Clone)]
pub struct BinaryHandle {
    pub resolved_path: String,
    pub source: BinarySource,
}

/// What the file system and the search path say about the executable.
pub struct BinaryProbe {
    /// Whether the bundled copy exists and is a file.
    pub bundled_exists: bool,
    /// What a lookup on the search path printed, where it found something.
    pub system_lookup: Option<String>,
    /// For each of the common locations, in order, whether it exists.
    pub common_exists: Vec<bool>,
}

/// The file name of the executable on an operating system.
pub open spec fn binary_name(os: Seq<char>) -> Seq<char> {
    if os == "windows"@ {
        "ast-grep.exe"@
    } else {
        "ast-grep"@
    }
}

/// The part of a release archive's name that names the platform.
pub open spec fn platform_suffix(os: Seq<char>, arch: Seq<char>) -> Option<Seq<char>> {
    if os == "linux"@ && arch == "x86_64"@ {
        Some("x86_64-unknown-linux-gnu"@)
    } else if os == "linux"@ && arch == "aarch64"@ {
        Some("aarch64-unknown-linux-gnu"@)
    } else if os == "macos"@ && arch == "x86_64"@ {
        Some("x86_64-apple-darwin"@)
    } else if os == "macos"@ && arch == "aarch64"@ {
        Some("aarch64-apple-darwin"@)
    } else if os == "windows"@ && arch == "x86_64"@ {
        Some("x86_64-pc-windows-msvc"@)
    } else if os == "windows"@ && arch == "x86"@ {
        Some("i686-pc-windows-msvc"@)
    } else {
        None
    }
}

/// The address of the release archive for a platform suffix.
pub open spec fn download_url(suffix: Seq<char>) -> Seq<char> {
    GITHUB_RELEASE_URL@ + "/"@ + AST_GREP_VERSION@ + "/app-"@ + suffix + ".zip"@
}

/// The message of the error for a platform without a release.
pub open spec fn unsupported_platform_message(os: Seq<char>, arch: Seq<char>) -> Seq<char> {
    "Unsupported platform: "@ + os + " "@ + arch
}

/// Whether an archive member of this name is the executable: its name ends
/// with the executable's name, with or without `.exe`, in whatever directory
/// it lies.
pub open spec fn is_binary_member_name(name: Seq<char>) -> bool {
    has_suffix(name, "ast-grep"@) || has_suffix(name, "ast-grep.exe"@)
}

/// The locations, besides the search path, at which the executable is
/// commonly installed.
pub open spec fn common_locations() -> Seq<Seq<char>> {
    seq![
        "/usr/local/bin/ast-grep"@,
        "/usr/bin/ast-grep"@,
        "/opt/homebrew/bin/ast-grep"@,
        "/usr/local/cargo/bin/ast-grep"@,
    ]
}

/// The first common location that exists according to `exists`, or the bare
/// name of the executable where none does. An entry that `exists` lacks
/// counts as absent.
pub open spec fn first_common_location(exists: Seq<bool>, from: int) -> Seq<char>
    decreases common_locations().len() - from,
{
    if from < 0 || from >= common_locations().len() {
        "ast-grep"@
    } else if from < exists.len() && exists[from] {
        common_locations()[from]
    } else {
        first_common_location(exists, from + 1)
    }
}

/// Locates the executable for one platform.
pub struct BinaryManager {
    binary_dir: String,
    binary_path: String,
    os: String,
    arch: String,
    resolved: Option<BinaryHandle>,
}

impl BinaryManager {
    /// The directory that holds the bundled executable.
    pub closed spec fn binary_dir(&self) -> Seq<char> {
        self.binary_dir@
    }

    /// The path of the bundled executable.
    pub closed spec fn binary_path(&self) -> Seq<char> {
        self.binary_path@
    }

    /// The operating system this manager works for.
    pub closed spec fn os(&self) -> Seq<char> {
        self.os@
    }

    /// The architecture this manager works for.
    pub closed spec fn arch(&self) -> Seq<char> {
        self.arch@
    }

    /// The path that an earlier search settled on, if any.
    pub closed spec fn resolved_path(&self) -> Option<Seq<char>> {
        match self.resolved {
            Some(handle) => Some(handle.resolved_path@),
            None => None,
        }
    }

    /// Where the path that an earlier search settled on came from.
    pub closed spec fn resolved_source(&self) -> Option<BinarySource> {
        match self.resolved {
            Some(handle) => Some(handle.source),
            None => None,
        }
    }

    /// The bundled executable lies in the bundle directory under the
    /// executable's name for the platform.
    pub open spec fn wf(&self) -> bool {
        self.binary_path() == joined(self.binary_dir(), binary_name(self.os()))
    }

    /// A manager for the platform `os`/`arch`, whose bundle directory lies
    /// in `exe_dir`, the directory of the running program. Fails where that
    /// directory is not known.
    pub fn new(exe_dir: Option<&str>, os: &str, arch: &str) -> (r: Result<Self, BinaryError>)
        ensures
            match r {
                Ok(manager) => exe_dir matches Some(dir) && manager.wf() && manager.binary_dir()
                    == joined(dir@, BUNDLE_DIRECTORY@) && manager.os() == os@ && manager.arch()
                    == arch@ && manager.resolved_path() is None,
                Err(e) => exe_dir is None && e.kind == BinaryErrorKind::NoExecutableDirectory
                    && e.message@ == "Cannot determine executable directory"@,
            },
    {
        match exe_dir {
            Some(dir) => {
                let binary_dir = join(dir, BUNDLE_DIRECTORY);
                let binary_path = join(binary_dir.as_str(), Self::get_binary_name(os));
                Ok(
                    BinaryManager {
                        binary_dir,
                        binary_path,
                        os: os.to_owned(),
                        arch: arch.to_owned(),
                        resolved: None,
                    },
                )
            },
            None => Err(
                BinaryError {
                    kind: BinaryErrorKind::NoExecutableDirectory,
                    message: "Cannot determine executable directory".to_owned(),
                },
            ),
        }
    }

    /// The file name of the executable on the operating system `os`.
    pub fn get_binary_name(os: &str) -> (name: &'static str)
        ensures
            name@ == binary_name(os@),
    {
        if str_eq(os, "windows") {
            "ast-grep.exe"
        } else {
            "ast-grep"
        }
    }

    /// The path of the bundled executable, whether or not it exists.
    pub fn bundled_path(&self) -> (path: &str)
        ensures
            path@ == self.binary_path(),
    {
        self.binary_path.as_str()
    }

    /// The directory that holds the bundled executable.
    pub fn bundle_dir(&self) -> (path: &str)
        ensures
            path@ == self.binary_dir(),
    {
        self.binary_dir.as_str()
    }

    /// The platform part of the release archive's name. Fails for a platform
    /// that has no release.
    pub fn get_platform_suffix(&self) -> (r: Result<&'static str, BinaryError>)
        ensures
            match r {
                Ok(suffix) => platform_suffix(self.os(), self.arch()) == Some(suffix@),
                Err(e) => platform_suffix(self.os(), self.arch()) is None && e.kind
                    == BinaryErrorKind::UnsupportedPlatform && e.message@
                    == unsupported_platform_message(self.os(), self.arch()),
            },
    {
        let os = self.os.as_str();
        let arch = self.arch.as_str();
        if str_eq(os, "linux") && str_eq(arch, "x86_64") {
            Ok("x86_64-unknown-linux-gnu")
        } else if str_eq(os, "linux") && str_eq(arch, "aarch64") {
            Ok("aarch64-unknown-linux-gnu")
        } else if str_eq(os, "macos") && str_eq(arch, "x86_64") {
            Ok("x86_64-apple-darwin")
        } else if str_eq(os, "macos") && str_eq(arch, "aarch64") {
            Ok("aarch64-apple-darwin")
        } else if str_eq(os, "windows") && str_eq(arch, "x86_64") {
            Ok("x86_64-pc-windows-msvc")
        } else if str_eq(os, "windows") && str_eq(arch, "x86") {
            Ok("i686-pc-windows-msvc")
        } else {
            let mut message = "Unsupported platform: ".to_owned();
            message.append(os);
            message.append(" ");
            message.append(arch);
            Err(BinaryError { kind: BinaryErrorKind::UnsupportedPlatform, message })
        }
    }

    /// The address of the release archive for this platform. Fails for a
    /// platform that has no release.
    pub fn get_download_url(&self) -> (r: Result<String, BinaryError>)
        ensures
            match r {
                Ok(url) => platform_suffix(self.os(), self.arch()) matches Some(suffix) && url@
                    == download_url(suffix),
                Err(e) => platform_suffix(self.os(), self.arch()) is None && e.kind
                    == BinaryErrorKind::UnsupportedPlatform && e.message@
                    == unsupported_platform_message(self.os(), self.arch()),
            },
    {
        match self.get_platform_suffix() {
            Ok(suffix) => {
                let mut url = GITHUB_RELEASE_URL.to_owned();
                url.append("/");
                url.append(AST_GREP_VERSION);
                url.append("/app-");
                url.append(suffix);
                url.append(".zip");
                Ok(url)
            },
            Err(e) => Err(e),
        }
    }

    /// The path to try for the executable, without fetching anything: the
    /// bundled copy where it exists, else what the search path gave, else the
    /// first common location that exists, else the bare name of the
    /// executable. Never fails.
    pub fn get_binary_path(&self, probe: &BinaryProbe) -> (r: Result<String, BinaryError>)
        ensures
            r matches Ok(path) && path@ == if probe.bundled_exists {
                self.binary_path()
            } else {
                match probe.system_lookup {
                    Some(found) => trimmed(found@),
                    None => first_common_location(probe.common_exists@, 0),
                }
            },
    {
        if probe.bundled_exists {
            return Ok(self.binary_path.clone());
        }
        match &probe.system_lookup {
            Some(found) => Ok(trim(found.as_str())),
            None => Ok(first_existing_location(&probe.common_exists)),
        }
    }
}

/// The common locations, in the order in which they are tried.
pub fn common_paths() -> (paths: Vec<&'static str>)
    ensures
        paths@.len() == common_locations().len(),
        forall|i: int| 0 <= i < paths@.len() ==> (#[trigger] paths@[i])@ == common_locations()[i],
{
    let mut paths: Vec<&'static str> = Vec::new();
    paths.push("/usr/local/bin/ast-grep");
    paths.push("/usr/bin/ast-grep");
    paths.push("/opt/homebrew/bin/ast-grep");
    paths.push("/usr/local/cargo/bin/ast-grep");
    paths
}

/// The first common location that exists, or the bare name of the
/// executable.
pub fn first_existing_location(exists: &Vec<bool>) -> (path: String)
    ensures
        path@ == first_common_location(exists@, 0),
{
    let paths = common_paths();
    let mut i: usize = 0;
    while i < paths.len()
        invariant
            i <= paths.len(),
            paths@.len() == common_locations().len(),
            forall|k: int|
                0 <= k < paths@.len() ==> (#[trigger] paths@[k])@ == common_locations()[k],
            first_common_location(exists@, 0) == first_common_location(exists@, i as int),
        decreases paths.len() - i,
    {
        if i < exists.len() && exists[i] {
            return paths[i].to_owned();
        }
        i = i + 1;
    }
    "ast-grep".to_owned()
}

/// Whether an archive member of this name is the executable.
pub fn is_binary_member(name: &str) -> (r: bool)
    ensures
        r == is_binary_member_name(name@),
{
    ends_with(name, "ast-grep") || ends_with(name, "ast-grep.exe")
}

/// The message for a ZIP archive that does not hold the executable.
pub const ZIP_MEMBER_ABSENT: &'static str = "ast-grep binary not found in ZIP archive";

/// The message for a tar archive that does not hold the executable.
pub const TAR_MEMBER_ABSENT: &'static str = "ast-grep binary not found in tar.gz archive";

/// The index of the executable among the members `from..` of a listing: the
/// first member that is the executable, unless a member before it cannot be
/// read, whose error then decides. Where no member is the executable the
/// outcome is the message `absent`.
pub open spec fn member_scan(
    names: Seq<Result<Seq<char>, Seq<char>>>,
    from: int,
    absent: Seq<char>,
) -> Result<int, Seq<char>>
    decreases names.len() - from,
{
    if from < 0 || from >= names.len() {
        Err(absent)
    } else {
        match names[from] {
            Err(e) => Err(e),
            Ok(name) => if is_binary_member_name(name) {
                Ok(from)
            } else {
                member_scan(names, from + 1, absent)
            },
        }
    }
}

/// The index of the executable in a listing, or the message of what stands
/// in the way: the archive's own error, the error of a member before the
/// executable, or `absent` where no member is the executable.
pub open spec fn member_choice(
    listing: Result<Seq<Result<Seq<char>, Seq<char>>>, Seq<char>>,
    absent: Seq<char>,
) -> Result<int, Seq<char>> {
    match listing {
        Err(e) => Err(e),
        Ok(names) => member_scan(names, 0, absent),
    }
}

/// The executable held in a ZIP archive.
pub open spec fn zip_extraction(bytes: Seq<u8>) -> Result<Seq<u8>, Seq<char>> {
    match member_choice(zip_listing(bytes), ZIP_MEMBER_ABSENT@) {
        Err(e) => Err(e),
        Ok(index) => zip_content(bytes, index),
    }
}

/// The executable held in a gzip-compressed tar archive.
pub open spec fn tar_gz_extraction(bytes: Seq<u8>) -> Result<Seq<u8>, Seq<char>> {
    match member_choice(tar_gz_listing(bytes), TAR_MEMBER_ABSENT@) {
        Err(e) => Err(e),
        Ok(index) => tar_gz_content(bytes, index),
    }
}

/// The executable held in a release archive: what the archive gives as a
/// ZIP archive, and where that fails, what it gives as a gzip-compressed tar
/// archive.
pub open spec fn extraction(bytes: Seq<u8>) -> Result<Seq<u8>, Seq<char>> {
    match zip_extraction(bytes) {
        Ok(content) => Ok(content),
        Err(_) => tar_gz_extraction(bytes),
    }
}

/// Picks the executable from the listing of an archive.
pub fn choose_member(listing: &Result<Vec<Result<String, String>>, String>, absent: &str) -> (r:
    Result<usize, BinaryError>)
    ensures
        match r {
            Ok(index) => member_choice(listing_view(*listing), absent@) == Ok::<int, Seq<char>>(
                index as int,
            ) && (listing matches Ok(names) && index < names.len()),
            Err(e) => e.kind == BinaryErrorKind::Extraction && member_choice(
                listing_view(*listing),
                absent@,
            ) == Err::<int, Seq<char>>(e.message@),
        },
{
    let names = match listing {
        Ok(names) => names,
        Err(e) => {
            return Err(BinaryError { kind: BinaryErrorKind::Extraction, message: e.clone() });
        },
    };
    let ghost all = listing_view(*listing)->Ok_0;
    let mut i: usize = 0;
    while i < names.len()
        invariant
            i <= names.len(),
            all.len() == names.len(),
            *listing is Ok,
            listing->Ok_0 == *names,
            listing_view(*listing) == Ok::<Seq<Result<Seq<char>, Seq<char>>>, Seq<char>>(all),
            forall|k: int| 0 <= k < names.len() ==> all[k] == crate::archive::name_view(names@[k]),
            member_scan(all, 0, absent@) == member_scan(all, i as int, absent@),
        decreases names.len() - i,
    {
        match &names[i] {
            Err(e) => {
                return Err(BinaryError { kind: BinaryErrorKind::Extraction, message: e.clone() });
            },
            Ok(name) => {
                if is_binary_member(name.as_str()) {
                    return Ok(i);
                }
            },
        }
        i = i + 1;
    }
    Err(BinaryError { kind: BinaryErrorKind::Extraction, message: absent.to_owned() })
}

/// Takes the executable out of a ZIP archive.
pub fn extract_zip(bytes: &Vec<u8>) -> (r: Result<Vec<u8>, BinaryError>)
    ensures
        match r {
            Ok(content) => zip_extraction(bytes@) == Ok::<Seq<u8>, Seq<char>>(content@),
            Err(e) => e.kind == BinaryErrorKind::Extraction && zip_extraction(bytes@) == Err::<
                Seq<u8>,
                Seq<char>,
            >(e.message@),
        },
{
    let listing = zip_names(bytes);
    match choose_member(&listing, ZIP_MEMBER_ABSENT) {
        Err(e) => Err(e),
        Ok(index) => match zip_read(bytes, index) {
            Ok(content) => Ok(content),
            Err(e) => Err(BinaryError { kind: BinaryErrorKind::Extraction, message: e }),
        },
    }
}

/// Takes the executable out of a gzip-compressed tar archive.
pub fn extract_tar_gz(bytes: &Vec<u8>) -> (r: Result<Vec<u8>, BinaryError>)
    ensures
        match r {
            Ok(content) => tar_gz_extraction(bytes@) == Ok::<Seq<u8>, Seq<char>>(content@),
            Err(e) => e.kind == BinaryErrorKind::Extraction && tar_gz_extraction(bytes@) == Err::<
                Seq<u8>,
                Seq<char>,
            >(e.message@),
        },
{
    let listing = tar_gz_names(bytes);
    match choose_member(&listing, TAR_MEMBER_ABSENT) {
        Err(e) => Err(e),
        Ok(index) => match tar_gz_read(bytes, index) {
            Ok(content) => Ok(content),
            Err(e) => Err(BinaryError { kind: BinaryErrorKind::Extraction, message: e }),
        },
    }
}

/// Takes the executable out of a release archive: tries the archive as a ZIP
/// archive first and, where that fails for whatever reason, as a
/// gzip-compressed tar archive, whose error then stands.
pub fn extract_binary(bytes: &Vec<u8>) -> (r: Result<Vec<u8>, BinaryError>)
    ensures
        match r {
            Ok(content) => extraction(bytes@) == Ok::<Seq<u8>, Seq<char>>(content@),
            Err(e) => e.kind == BinaryErrorKind::Extraction && extraction(bytes@) == Err::<
                Seq<u8>,
                Seq<char>,
            >(e.message@),
        },
{
    match extract_zip(bytes) {
        Ok(content) => Ok(content),
        Err(_) => extract_tar_gz(bytes),
    }
}

/// The beginning of the message for a download that the server refused.
pub const DOWNLOAD_STATUS_HEAD: &'static str = "Failed to download binary: HTTP ";

/// The message for an event that was not waited for.
pub const UNEXPECTED_EVENT: &'static str = "unexpected event for this step of the search";

/// Where a search for the executable stands.
#[derive(Debug, Clone, Copy, PartialEq, Eq, Structural)]
pub enum EnsureState {
    /// Waiting to hear whether the bundled copy exists.
    CheckingBundled,
    /// Waiting for the lookup on the search path.
    FindingSystem,
    /// Waiting for the release archive.
    Downloading,
    /// Waiting for the bundled copy to be written.
    Installing,
    /// The search is over.
    Done,
}

/// What a search for the executable asks of its surroundings next.
#[derive(Debug)]
pub enum EnsureAction {
    /// Find out whether `path` exists and is a file.
    CheckBundled { path: String },
    /// Look the executable up on the search path.
    FindSystemBinary,
    /// Fetch the archive at `url`.
    Download { url: String },
    /// Create `directory`, write `content` to `path` and make the file
    /// executable.
    Install { directory: String, path: String, content: Vec<u8> },
    /// The search is over, and this is its outcome.
    Finish(Result<String, BinaryError>),
}

/// Why a download failed.
#[derive(Debug)]
pub enum DownloadFailure {
    /// The server answered with a status that is no success; the text of
    /// the status.
    Status(String),
    /// The request could not be made or its answer not read; the message.
    Transport(String),
}

/// What the surroundings answer to an [`EnsureAction`].
#[derive(Debug)]
pub enum EnsureEvent {
    /// Whether the bundled copy exists and is a file.
    Bundled { exists: bool },
    /// What the lookup on the search path printed, where it found something.
    SystemBinary { output: Option<String> },
    /// The bytes of the archive, or why there are none.
    Downloaded(Result<Vec<u8>, DownloadFailure>),
    /// Whether the bundled copy was written; the message where it was not.
    Installed(Result<(), String>),
}

/// `action` ends the search with success at `path`.
pub open spec fn finishes_at(action: EnsureAction, path: Seq<char>) -> bool {
    action matches EnsureAction::Finish(Ok(found)) && found@ == path
}

/// `action` ends the search with a failure of this kind and message.
pub open spec fn finishes_failing(
    action: EnsureAction,
    kind: BinaryErrorKind,
    message: Seq<char>,
) -> bool {
    action matches EnsureAction::Finish(Err(e)) && e.kind == kind && e.message@ == message
}

/// The message for a download that failed.
pub open spec fn download_failure_message(failure: DownloadFailure) -> Seq<char> {
    match failure {
        DownloadFailure::Status(status) => DOWNLOAD_STATUS_HEAD@ + status@,
        DownloadFailure::Transport(message) => message@,
    }
}

impl BinaryManager {
    /// How a search begins: with the path an earlier search settled on,
    /// where there is one, and else with a look at the bundled copy.
    pub open spec fn begins(&self, state: EnsureState, action: EnsureAction) -> bool {
        match self.resolved_path() {
            Some(path) => state == EnsureState::Done && finishes_at(action, path),
            None => state == EnsureState::CheckingBundled && (action matches EnsureAction::CheckBundled {
                path,
            } && path@ == self.binary_path()),
        }
    }

    /// How a search goes on from `state` when `event` arrives: the state and
    /// action that follow, and what the manager remembers afterwards.
    ///
    /// A bundled copy that exists ends the search. Else the search path is
    /// asked, and what it finds ends the search. Else the release archive for
    /// the platform is fetched, the executable taken out of it and written to
    /// the bundle directory. A search that succeeds is remembered with its
    /// source; one that fails is not.
    pub open spec fn follows(
        &self,
        state: EnsureState,
        event: EnsureEvent,
        after: BinaryManager,
        next: EnsureState,
        action: EnsureAction,
    ) -> bool {
        &&& after.binary_dir() == self.binary_dir()
        &&& after.binary_path() == self.binary_path()
        &&& after.os() == self.os()
        &&& after.arch() == self.arch()
        &&& match (state, event) {
            (EnsureState::CheckingBundled, EnsureEvent::Bundled { exists: true }) => {
                &&& next == EnsureState::Done
                &&& finishes_at(action, self.binary_path())
                &&& after.resolved_path() == Some(self.binary_path())
                &&& after.resolved_source() == Some(BinarySource::Bundled)
            },
            (EnsureState::CheckingBundled, EnsureEvent::Bundled { exists: false }) => {
                &&& next == EnsureState::FindingSystem
                &&& action is FindSystemBinary
                &&& after.resolved_path() == self.resolved_path()
            },
            (EnsureState::FindingSystem, EnsureEvent::SystemBinary { output: Some(output) }) => {
                &&& next == EnsureState::Done
                &&& finishes_at(action, trimmed(output@))
                &&& after.resolved_path() == Some(trimmed(output@))
                &&& after.resolved_source() == Some(BinarySource::System)
            },
            (EnsureState::FindingSystem, EnsureEvent::SystemBinary { output: None }) => {
                &&& after.resolved_path() == self.resolved_path()
                &&& match platform_suffix(self.os(), self.arch()) {
                    Some(suffix) => next == EnsureState::Downloading && (
                    action matches EnsureAction::Download { url } && url@ == download_url(suffix)),
                    None => next == EnsureState::Done && finishes_failing(
                        action,
                        BinaryErrorKind::UnsupportedPlatform,
                        unsupported_platform_message(self.os(), self.arch()),
                    ),
                }
            },
            (EnsureState::Downloading, EnsureEvent::Downloaded(Ok(bytes))) => {
                &&& after.resolved_path() == self.resolved_path()
                &&& match extraction(bytes@) {
                    Ok(content) => next == EnsureState::Installing && (
                    action matches EnsureAction::Install { directory, path, content: written }
                        && directory@ == self.binary_dir() && path@ == self.binary_path()
                        && written@ == content),
                    Err(message) => next == EnsureState::Done && finishes_failing(
                        action,
                        BinaryErrorKind::Extraction,
                        message,
                    ),
                }
            },
            (EnsureState::Downloading, EnsureEvent::Downloaded(Err(failure))) => {
                &&& next == EnsureState::Done
                &&& after.resolved_path() == self.resolved_path()
                &&& finishes_failing(
                    action,
                    BinaryErrorKind::Download,
                    download_failure_message(failure),
                )
            },
            (EnsureState::Installing, EnsureEvent::Installed(Ok(_))) => {
                &&& next == EnsureState::Done
                &&& finishes_at(action, self.binary_path())
                &&& after.resolved_path() == Some(self.binary_path())
                &&& after.resolved_source() == Some(BinarySource::Downloaded)
            },
            (EnsureState::Installing, EnsureEvent::Installed(Err(message))) => {
                &&& next == EnsureState::Done
                &&& after.resolved_path() == self.resolved_path()
                &&& finishes_failing(action, BinaryErrorKind::Io, message@)
            },
            _ => {
                &&& next == EnsureState::Done
                &&& after.resolved_path() == self.resolved_path()
                &&& finishes_failing(action, BinaryErrorKind::UnexpectedEvent, UNEXPECTED_EVENT@)
            },
        }
    }

    /// Begins a search for the executable. The search is carried on by
    /// performing the action and handing the answer to [`Self::advance`],
    /// until the action is `Finish`.
    pub fn ensure_binary(&self) -> (step: (EnsureState, EnsureAction))
        ensures
            self.begins(step.0, step.1),
    {
        match &self.resolved {
            Some(handle) => (
                EnsureState::Done,
                EnsureAction::Finish(Ok(handle.resolved_path.clone())),
            ),
            None => (
                EnsureState::CheckingBundled,
                EnsureAction::CheckBundled { path: self.binary_path.clone() },
            ),
        }
    }

    /// Remembers the outcome of a search and ends it.
    fn settle(&mut self, path: String, source: BinarySource) -> (step: (EnsureState, EnsureAction))
        ensures
            step.0 == EnsureState::Done,
            finishes_at(step.1, path@),
            final(self).resolved_path() == Some(path@),
            final(self).resolved_source() == Some(source),
            final(self).binary_dir() == old(self).binary_dir(),
            final(self).binary_path() == old(self).binary_path(),
            final(self).os() == old(self).os(),
            final(self).arch() == old(self).arch(),
    {
        self.resolved = Some(BinaryHandle { resolved_path: path.clone(), source });
        (EnsureState::Done, EnsureAction::Finish(Ok(path)))
    }

    /// Carries a search on from `state` with the answer to its last action.
    pub fn advance(&mut self, state: EnsureState, event: EnsureEvent) -> (step: (
        EnsureState,
        EnsureAction,
    ))
        ensures
            old(self).follows(state, event, *final(self), step.0, step.1),
    {
        match (state, event) {
            (EnsureState::CheckingBundled, EnsureEvent::Bundled { exists }) => {
                if exists {
                    let path = self.binary_path.clone();
                    self.settle(path, BinarySource::Bundled)
                } else {
                    (EnsureState::FindingSystem, EnsureAction::FindSystemBinary)
                }
            },
            (EnsureState::FindingSystem, EnsureEvent::SystemBinary { output }) => {
                match output {
                    Some(output) => {
                        let path = trim(output.as_str());
                        self.settle(path, BinarySource::System)
                    },
                    None => match self.get_download_url() {
                        Ok(url) => (EnsureState::Downloading, EnsureAction::Download { url }),
                        Err(e) => (EnsureState::Done, EnsureAction::Finish(Err(e))),
                    },
                }
            },
            (EnsureState::Downloading, EnsureEvent::Downloaded(outcome)) => {
                match outcome {
                    Ok(bytes) => match extract_binary(&bytes) {
                        Ok(content) => (
                            EnsureState::Installing,
                            EnsureAction::Install {
                                directory: self.binary_dir.clone(),
                                path: self.binary_path.clone(),
                                content,
                            },
                        ),
                        Err(e) => (EnsureState::Done, EnsureAction::Finish(Err(e))),
                    },
                    Err(failure) => {
                        let message = match failure {
                            DownloadFailure::Status(status) => {
                                let mut message = DOWNLOAD_STATUS_HEAD.to_owned();
                                message.append(status.as_str());
                                message
                            },
                            DownloadFailure::Transport(message) => message,
                        };
                        (
                            EnsureState::Done,
                            EnsureAction::Finish(
                                Err(BinaryError { kind: BinaryErrorKind::Download, message }),
                            ),
                        )
                    },
                }
            },
            (EnsureState::Installing, EnsureEvent::Installed(outcome)) => {
                match outcome {
                    Ok(_) => {
                        let path = self.binary_path.clone();
                        self.settle(path, BinarySource::Downloaded)
                    },
                    Err(message) => (
                        EnsureState::Done,
                        EnsureAction::Finish(
                            Err(BinaryError { kind: BinaryErrorKind::Io, message }),
                        ),
                    ),
                }
            },
            _ => (
                EnsureState::Done,
                EnsureAction::Finish(
                    Err(
                        BinaryError {
                            kind: BinaryErrorKind::UnexpectedEvent,
                            message: UNEXPECTED_EVENT.to_owned(),
                        },
                    ),
                ),
            ),
        }
    }
}

/// A search that finds the bundled copy in place ends with its path and is
/// remembered, and the search after it ends at once with the same path:
/// neither fetches anything.
pub proof fn lemma_bundled_binary_is_found_again(
    manager: BinaryManager,
    after: BinaryManager,
    next: EnsureState,
    action: EnsureAction,
    again_state: EnsureState,
    again_action: EnsureAction,
)
    requires
        manager.follows(
            EnsureState::CheckingBundled,
            EnsureEvent::Bundled { exists: true },
            after,
            next,
            action,
        ),
        after.begins(again_state, again_action),
    ensures
        finishes_at(action, manager.binary_path()),
        finishes_at(again_action, manager.binary_path()),
        next == EnsureState::Done,
        again_state == EnsureState::Done,
{
}

/// A search that is over is remembered exactly when it succeeded: every
/// search after a success ends at once with the same path, and a failure
/// leaves what was remembered as it was.
pub proof fn lemma_only_success_is_remembered(
    manager: BinaryManager,
    state: EnsureState,
    event: EnsureEvent,
    after: BinaryManager,
    next: EnsureState,
    action: EnsureAction,
)
    requires
        manager.follows(state, event, after, next, action),
    ensures
        action matches EnsureAction::Finish(Ok(path)) ==> after.resolved_path() == Some(path@),
        action matches EnsureAction::Finish(Err(_)) ==> after.resolved_path()
            == manager.resolved_path(),
        action is Download ==> state == EnsureState::FindingSystem && event
            == (EnsureEvent::SystemBinary { output: None }),
        action is Finish <==> next == EnsureState::Done,
{
}

} // verus!
