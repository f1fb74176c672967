use mcp_ast_grep::binary_manager::{
    choose_member, extract_binary, extract_tar_gz, extract_zip, first_existing_location,
    is_binary_member, BinaryErrorKind, BinaryManager, BinaryProbe, DownloadFailure, EnsureAction,
    EnsureEvent, EnsureState,
};
use std::io::Write;

fn manager(os: &str, arch: &str) -> BinaryManager {
    BinaryManager::new(Some("/opt/server"), os, arch).unwrap()
}

fn zip_of(members: &[(&str, &[u8])]) -> Vec<u8> {
    let mut writer = zip::ZipWriter::new(std::io::Cursor::new(Vec::new()));
    for (name, content) in members {
        writer.start_file(*name, zip::write::SimpleFileOptions::default()).unwrap();
        writer.write_all(content).unwrap();
    }
    writer.finish().unwrap().into_inner()
}

fn tar_gz_of(members: &[(&str, &[u8])]) -> Vec<u8> {
    let encoder = flate2::write::GzEncoder::new(Vec::new(), flate2::Compression::default());
    let mut builder = tar::Builder::new(encoder);
    for (name, content) in members {
        let mut header = tar::Header::new_gnu();
        header.set_size(content.len() as u64);
        header.set_mode(0o755);
        header.set_cksum();
        builder.append_data(&mut header, *name, *content).unwrap();
    }
    builder.into_inner().unwrap().finish().unwrap()
}

#[test]
fn test_get_platform_suffix() {
    let manager = manager("linux", "x86_64");
    let suffix = manager.get_platform_suffix();
    assert!(suffix.is_ok());
}

#[test]
fn test_get_binary_dir() {
    let manager = BinaryManager::new(Some("/opt/server"), "linux", "x86_64");
    assert!(manager.is_ok());
    assert_eq!(manager.unwrap().bundle_dir(), "/opt/server/bundled_binaries");
}

#[test]
fn new_fails_without_executable_directory() {
    let err = BinaryManager::new(None, "linux", "x86_64").err().unwrap();
    assert_eq!(err.kind, BinaryErrorKind::NoExecutableDirectory);
    assert_eq!(err.message, "Cannot determine executable directory");
}

#[test]
fn bundled_path_depends_on_the_operating_system() {
    assert_eq!(manager("linux", "x86_64").bundled_path(), "/opt/server/bundled_binaries/ast-grep");
    assert_eq!(
        manager("windows", "x86_64").bundled_path(),
        "/opt/server/bundled_binaries/ast-grep.exe"
    );
    assert_eq!(BinaryManager::get_binary_name("macos"), "ast-grep");
    assert_eq!(BinaryManager::get_binary_name("windows"), "ast-grep.exe");
}

#[test]
fn platform_suffix_follows_the_table() {
    for (os, arch, suffix) in [
        ("linux", "x86_64", "x86_64-unknown-linux-gnu"),
        ("linux", "aarch64", "aarch64-unknown-linux-gnu"),
        ("macos", "x86_64", "x86_64-apple-darwin"),
        ("macos", "aarch64", "aarch64-apple-darwin"),
        ("windows", "x86_64", "x86_64-pc-windows-msvc"),
        ("windows", "x86", "i686-pc-windows-msvc"),
    ] {
        assert_eq!(manager(os, arch).get_platform_suffix().unwrap(), suffix);
    }
    let err = manager("freebsd", "riscv64").get_platform_suffix().unwrap_err();
    assert_eq!(err.kind, BinaryErrorKind::UnsupportedPlatform);
    assert_eq!(err.message, "Unsupported platform: freebsd riscv64");
    assert!(manager("windows", "aarch64").get_platform_suffix().is_err());
}

#[test]
fn download_url_names_release_and_platform() {
    assert_eq!(
        manager("linux", "x86_64").get_download_url().unwrap(),
        "https://github.com/ast-grep/ast-grep/releases/download/0.38.7/app-x86_64-unknown-linux-gnu.zip"
    );
    assert_eq!(
        manager("plan9", "x86").get_download_url().unwrap_err().kind,
        BinaryErrorKind::UnsupportedPlatform
    );
}

#[test]
fn get_binary_path_never_fails() {
    let manager = manager("linux", "x86_64");
    let probe = |bundled: bool, lookup: Option<&str>, common: Vec<bool>| BinaryProbe {
        bundled_exists: bundled,
        system_lookup: lookup.map(|s| s.to_string()),
        common_exists: common,
    };
    assert_eq!(
        manager.get_binary_path(&probe(true, Some("/usr/bin/sg\n"), vec![true; 4])).unwrap(),
        "/opt/server/bundled_binaries/ast-grep"
    );
    assert_eq!(
        manager.get_binary_path(&probe(false, Some("  /home/me/.cargo/bin/ast-grep\n"), vec![])).unwrap(),
        "/home/me/.cargo/bin/ast-grep"
    );
    assert_eq!(
        manager.get_binary_path(&probe(false, None, vec![false, true, true, false])).unwrap(),
        "/usr/bin/ast-grep"
    );
    assert_eq!(
        manager.get_binary_path(&probe(false, None, vec![false, false, false, true])).unwrap(),
        "/usr/local/cargo/bin/ast-grep"
    );
    assert_eq!(manager.get_binary_path(&probe(false, None, vec![false; 4])).unwrap(), "ast-grep");
    assert_eq!(manager.get_binary_path(&probe(false, None, vec![])).unwrap(), "ast-grep");
    assert_eq!(first_existing_location(&vec![true]), "/usr/local/bin/ast-grep");
    assert_eq!(first_existing_location(&vec![false, false, true]), "/opt/homebrew/bin/ast-grep");
}

#[test]
fn binary_member_names() {
    for name in ["ast-grep", "ast-grep.exe", "app/ast-grep", "a\\b\\ast-grep.exe", "dir/my-ast-grep"] {
        assert!(is_binary_member(name), "{name}");
    }
    for name in ["sg", "ast-grep.txt", "ast-grep/", "README.md", ""] {
        assert!(!is_binary_member(name), "{name}");
    }
}

#[test]
fn choose_member_takes_the_first_match_unless_an_error_comes_first() {
    let name = |n: &str| -> Result<String, String> { Ok(n.to_string()) };
    let listing = Ok(vec![name("README"), name("bin/ast-grep"), name("ast-grep")]);
    assert_eq!(choose_member(&listing, "absent").unwrap(), 1);
    let listing = Ok(vec![name("README"), Err("broken".to_string()), name("ast-grep")]);
    let err = choose_member(&listing, "absent").unwrap_err();
    assert_eq!(err.kind, BinaryErrorKind::Extraction);
    assert_eq!(err.message, "broken");
    let listing = Ok(vec![name("ast-grep"), Err("broken".to_string())]);
    assert_eq!(choose_member(&listing, "absent").unwrap(), 0);
    let listing = Ok(vec![name("README"), name("sg")]);
    assert_eq!(choose_member(&listing, "absent").unwrap_err().message, "absent");
    assert_eq!(choose_member(&Ok(Vec::new()), "absent").unwrap_err().message, "absent");
    assert_eq!(choose_member(&Err("no archive".to_string()), "absent").unwrap_err().message, "no archive");
}

#[test]
fn extract_zip_finds_the_binary_member() {
    let archive = zip_of(&[("README.md", b"read me"), ("app/ast-grep", b"BINARY"), ("ast-grep", b"OTHER")]);
    assert_eq!(extract_zip(&archive).unwrap(), b"BINARY");
    let archive = zip_of(&[("ast-grep.exe", b"EXE")]);
    assert_eq!(extract_zip(&archive).unwrap(), b"EXE");
    let archive = zip_of(&[("README.md", b"read me")]);
    let err = extract_zip(&archive).unwrap_err();
    assert_eq!(err.kind, BinaryErrorKind::Extraction);
    assert_eq!(err.message, "ast-grep binary not found in ZIP archive");
    assert_eq!(extract_zip(&b"not a zip".to_vec()).unwrap_err().kind, BinaryErrorKind::Extraction);
}

#[test]
fn extract_tar_gz_finds_the_binary_member() {
    let archive = tar_gz_of(&[("README.md", b"read me"), ("pkg/ast-grep", b"BINARY"), ("ast-grep", b"OTHER")]);
    assert_eq!(extract_tar_gz(&archive).unwrap(), b"BINARY");
    let archive = tar_gz_of(&[("README.md", b"read me")]);
    let err = extract_tar_gz(&archive).unwrap_err();
    assert_eq!(err.message, "ast-grep binary not found in tar.gz archive");
    assert!(extract_tar_gz(&b"not gzip".to_vec()).is_err());
}

#[test]
fn extract_binary_tries_zip_then_tar_gz() {
    let zipped = zip_of(&[("ast-grep", b"FROM ZIP")]);
    assert_eq!(extract_binary(&zipped).unwrap(), b"FROM ZIP");
    let tarred = tar_gz_of(&[("ast-grep", b"FROM TAR")]);
    assert_eq!(extract_binary(&tarred).unwrap(), b"FROM TAR");
    // where both fail the failure of the second stands
    let err = extract_binary(&zip_of(&[("README", b"x")])).unwrap_err();
    assert_eq!(err.kind, BinaryErrorKind::Extraction);
    assert_ne!(err.message, "ast-grep binary not found in ZIP archive");
}

#[test]
fn ensure_binary_returns_bundled_copy_and_remembers_it() {
    let mut manager = manager("linux", "x86_64");
    let (state, action) = manager.ensure_binary();
    assert_eq!(state, EnsureState::CheckingBundled);
    assert!(matches!(&action, EnsureAction::CheckBundled { path } if path == "/opt/server/bundled_binaries/ast-grep"));
    let (state, action) = manager.advance(state, EnsureEvent::Bundled { exists: true });
    assert_eq!(state, EnsureState::Done);
    assert!(matches!(&action, EnsureAction::Finish(Ok(path)) if path == "/opt/server/bundled_binaries/ast-grep"));
    // a second search ends at once with the same path, without a download
    let (state, action) = manager.ensure_binary();
    assert_eq!(state, EnsureState::Done);
    assert!(matches!(&action, EnsureAction::Finish(Ok(path)) if path == "/opt/server/bundled_binaries/ast-grep"));
}

#[test]
fn ensure_binary_prefers_system_binary_over_download() {
    let mut manager = manager("linux", "x86_64");
    let (state, _) = manager.ensure_binary();
    let (state, action) = manager.advance(state, EnsureEvent::Bundled { exists: false });
    assert_eq!(state, EnsureState::FindingSystem);
    assert!(matches!(action, EnsureAction::FindSystemBinary));
    let (state, action) =
        manager.advance(state, EnsureEvent::SystemBinary { output: Some("/usr/bin/ast-grep\n".to_string()) });
    assert_eq!(state, EnsureState::Done);
    assert!(matches!(&action, EnsureAction::Finish(Ok(path)) if path == "/usr/bin/ast-grep"));
}

#[test]
fn ensure_binary_downloads_extracts_and_installs() {
    let mut manager = manager("macos", "aarch64");
    let (state, _) = manager.ensure_binary();
    let (state, _) = manager.advance(state, EnsureEvent::Bundled { exists: false });
    let (state, action) = manager.advance(state, EnsureEvent::SystemBinary { output: None });
    assert_eq!(state, EnsureState::Downloading);
    assert!(matches!(&action, EnsureAction::Download { url }
        if url == "https://github.com/ast-grep/ast-grep/releases/download/0.38.7/app-aarch64-apple-darwin.zip"));
    let archive = zip_of(&[("ast-grep", b"BINARY")]);
    let (state, action) = manager.advance(state, EnsureEvent::Downloaded(Ok(archive)));
    assert_eq!(state, EnsureState::Installing);
    match &action {
        EnsureAction::Install { directory, path, content } => {
            assert_eq!(directory, "/opt/server/bundled_binaries");
            assert_eq!(path, "/opt/server/bundled_binaries/ast-grep");
            assert_eq!(content, b"BINARY");
        }
        _ => panic!("expected an install"),
    }
    let (state, action) = manager.advance(state, EnsureEvent::Installed(Ok(())));
    assert_eq!(state, EnsureState::Done);
    assert!(matches!(&action, EnsureAction::Finish(Ok(path)) if path == "/opt/server/bundled_binaries/ast-grep"));
    let (_, again) = manager.ensure_binary();
    assert!(matches!(&again, EnsureAction::Finish(Ok(path)) if path == "/opt/server/bundled_binaries/ast-grep"));
}

#[test]
fn ensure_binary_failures_are_not_remembered() {
    let failure = |action: &EnsureAction, kind: BinaryErrorKind, message: &str| match action {
        EnsureAction::Finish(Err(e)) => {
            assert_eq!(e.kind, kind);
            assert_eq!(e.message, message);
        }
        _ => panic!("expected a failure"),
    };
    // unsupported platform
    let mut unsupported = manager("solaris", "sparc");
    let (state, _) = unsupported.ensure_binary();
    let (state, _) = unsupported.advance(state, EnsureEvent::Bundled { exists: false });
    let (state, action) = unsupported.advance(state, EnsureEvent::SystemBinary { output: None });
    assert_eq!(state, EnsureState::Done);
    failure(&action, BinaryErrorKind::UnsupportedPlatform, "Unsupported platform: solaris sparc");

    let downloading = |m: &mut BinaryManager| {
        let (state, _) = m.ensure_binary();
        let (state, _) = m.advance(state, EnsureEvent::Bundled { exists: false });
        let (state, _) = m.advance(state, EnsureEvent::SystemBinary { output: None });
        state
    };
    // download failures
    let mut m = manager("linux", "x86_64");
    let state = downloading(&mut m);
    let (_, action) = m.advance(state, EnsureEvent::Downloaded(Err(DownloadFailure::Status("404 Not Found".to_string()))));
    failure(&action, BinaryErrorKind::Download, "Failed to download binary: HTTP 404 Not Found");
    let state = downloading(&mut m);
    let (_, action) = m.advance(state, EnsureEvent::Downloaded(Err(DownloadFailure::Transport("connection reset".to_string()))));
    failure(&action, BinaryErrorKind::Download, "connection reset");
    // extraction failure
    let state = downloading(&mut m);
    let (_, action) = m.advance(state, EnsureEvent::Downloaded(Ok(tar_gz_of(&[("README", b"x")]))));
    failure(&action, BinaryErrorKind::Extraction, "ast-grep binary not found in tar.gz archive");
    // install failure
    let state = downloading(&mut m);
    let (state, _) = m.advance(state, EnsureEvent::Downloaded(Ok(zip_of(&[("ast-grep", b"B")]))));
    let (_, action) = m.advance(state, EnsureEvent::Installed(Err("disk full".to_string())));
    failure(&action, BinaryErrorKind::Io, "disk full");
    // an event that was not asked for
    let (state, _) = m.ensure_binary();
    let (state, action) = m.advance(state, EnsureEvent::Installed(Ok(())));
    assert_eq!(state, EnsureState::Done);
    failure(&action, BinaryErrorKind::UnexpectedEvent, "unexpected event for this step of the search");
    // after all these failures a search still begins at the beginning
    let (state, _) = m.ensure_binary();
    assert_eq!(state, EnsureState::CheckingBundled);
}
