use launcher_core::error::{ExtractError, FailureKind};
use launcher_core::format::{detect_format, extension_token, ArchiveFormat};

#[test]
fn zip_extension_selects_zip() {
    assert_eq!(detect_format("app-1.0.zip"), Ok(ArchiveFormat::Zip));
}

#[test]
fn tar_extension_selects_tar() {
    assert_eq!(detect_format("/downloads/bundle.tar"), Ok(ArchiveFormat::Tar));
}

#[test]
fn gz_extension_selects_gzip_tar() {
    assert_eq!(detect_format("bundle.tar.gz"), Ok(ArchiveFormat::TarGzip));
    assert_eq!(detect_format("bundle.gz"), Ok(ArchiveFormat::TarGzip));
}

#[test]
fn unsupported_extension_is_a_format_failure() {
    let err = detect_format("release.rar").unwrap_err();
    assert_eq!(err, ExtractError::UnsupportedFormat { extension: "rar".to_string() });
    assert_eq!(err.kind(), FailureKind::FormatFailure);
    assert_eq!(err.message(), "Unsupported file extension: rar");
}

#[test]
fn name_without_dot_is_its_own_token() {
    assert_eq!(extension_token("archive"), "archive");
    let err = detect_format("archive").unwrap_err();
    assert_eq!(err.message(), "Unsupported file extension: archive");
}

#[test]
fn token_is_what_follows_the_last_dot() {
    assert_eq!(extension_token("a.b.c"), "c");
    assert_eq!(extension_token("trailing."), "");
    assert_eq!(extension_token(""), "");
    assert_eq!(extension_token("dir.d/zip"), "d/zip");
}

#[test]
fn extension_match_is_case_sensitive() {
    assert!(detect_format("APP.ZIP").is_err());
}

#[test]
fn failures_fall_under_their_kinds() {
    let io = ExtractError::Io { message: "No such file or directory (os error 2)".to_string() };
    assert_eq!(io.kind(), FailureKind::IoFailure);
    assert_eq!(io.message(), "No such file or directory (os error 2)");
    let malformed = ExtractError::Malformed { message: "invalid Zip archive".to_string() };
    assert_eq!(malformed.kind(), FailureKind::FormatFailure);
    assert_eq!(malformed.message(), "invalid Zip archive");
}
