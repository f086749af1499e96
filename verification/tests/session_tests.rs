use std::io::Write;

use launcher_core::error::{ExtractError, FailureKind};
use launcher_core::extract::ExtractStep;
use launcher_core::format::{tar_format, ArchiveFormat};
use launcher_core::platform::Platform;
use launcher_core::session::{advance, begin, begin_by_name, ExtractAction, ExtractState};

/// A file system that holds one archive and refuses what it is told to refuse.
struct Disk {
    archive: Option<Vec<u8>>,
    refuse_destination: bool,
    refuse_step: Option<usize>,
}

fn run(
    first: (ExtractState, ExtractAction),
    disk: &Disk,
) -> (Result<String, ExtractError>, Vec<ExtractAction>) {
    let (mut state, mut action) = first;
    let mut asked = Vec::new();
    let mut performed = 0;
    loop {
        let outcome = match &action {
            ExtractAction::Succeed { root_label } => return (Ok(root_label.clone()), asked),
            ExtractAction::Fail { error } => return (Err(error.clone()), asked),
            ExtractAction::ReadArchive { .. } => match &disk.archive {
                Some(bytes) => Ok(bytes.clone()),
                None => Err("No such file or directory (os error 2)".to_string()),
            },
            ExtractAction::CreateDestination { .. } => {
                if disk.refuse_destination {
                    Err("Permission denied (os error 13)".to_string())
                } else {
                    Ok(Vec::new())
                }
            }
            ExtractAction::Perform { .. } => {
                performed += 1;
                if disk.refuse_step == Some(performed) {
                    Err("No space left on device (os error 28)".to_string())
                } else {
                    Ok(Vec::new())
                }
            }
        };
        asked.push(action);
        let next = advance(Platform::Posix, state, outcome);
        state = next.0;
        action = next.1;
        assert!(asked.len() < 100, "the extraction does not end");
    }
}

fn disk_with(archive: Vec<u8>) -> Disk {
    Disk { archive: Some(archive), refuse_destination: false, refuse_step: None }
}

fn zip_of(entries: &[(&str, &[u8])]) -> Vec<u8> {
    let mut writer = zip::ZipWriter::new(std::io::Cursor::new(Vec::new()));
    let options = zip::write::SimpleFileOptions::default();
    for (name, content) in entries {
        writer.start_file(*name, options).unwrap();
        writer.write_all(content).unwrap();
    }
    writer.finish().unwrap().into_inner()
}

fn tar_of(entries: &[(&str, &[u8])]) -> Vec<u8> {
    let mut builder = tar::Builder::new(Vec::new());
    for (name, content) in entries {
        let mut header = tar::Header::new_gnu();
        header.set_mode(0o644);
        header.set_size(content.len() as u64);
        builder.append_data(&mut header, *name, *content).unwrap();
    }
    builder.into_inner().unwrap()
}

fn read(path: &str) -> ExtractAction {
    ExtractAction::ReadArchive { path: path.to_string() }
}

fn create(path: &str) -> ExtractAction {
    ExtractAction::CreateDestination { path: path.to_string() }
}

fn write(path: &str, content: &[u8]) -> ExtractAction {
    ExtractAction::Perform {
        step: ExtractStep::WriteFile { path: path.to_string(), content: content.to_vec() },
    }
}

fn io(message: &str) -> ExtractError {
    ExtractError::Io { message: message.to_string() }
}

#[test]
fn zip_is_read_then_written_entry_by_entry() {
    let disk =
        disk_with(zip_of(&[("app-1.0/bin/run.sh", b"run"), ("app-1.0/lib/x.jar", b"jar")]));
    let first = begin_by_name("app-1.0.zip".to_string(), "/tmp/out".to_string());
    let (result, asked) = run(first, &disk);
    assert_eq!(result, Ok("app-1.0".to_string()));
    assert_eq!(
        asked,
        vec![
            read("app-1.0.zip"),
            create("/tmp/out"),
            write("/tmp/out/app-1.0/bin/run.sh", b"run"),
            write("/tmp/out/app-1.0/lib/x.jar", b"jar"),
        ]
    );
}

#[test]
fn mixed_zip_reports_the_destination() {
    let disk = disk_with(zip_of(&[("a/file1", b"1"), ("b/file2", b"2")]));
    let first = begin_by_name("mixed.zip".to_string(), "/tmp/out2".to_string());
    let (result, asked) = run(first, &disk);
    assert_eq!(result, Ok("/tmp/out2".to_string()));
    assert_eq!(asked[2..], [write("/tmp/out2/a/file1", b"1"), write("/tmp/out2/b/file2", b"2")]);
}

#[test]
fn tar_destination_is_created_before_the_stream_is_read() {
    let disk = disk_with(tar_of(&[("pkg/a", b"a"), ("pkg/b", b"b")]));
    let first = begin_by_name("/dl/pkg.tar".to_string(), "/opt/x".to_string());
    let (result, asked) = run(first, &disk);
    assert_eq!(result, Ok("pkg".to_string()));
    assert_eq!(
        asked,
        vec![
            create("/opt/x"),
            read("/dl/pkg.tar"),
            ExtractAction::Perform { step: ExtractStep::UnpackTar { gzip: false } },
        ]
    );
}

#[test]
fn gzip_tar_is_unpacked_through_gzip() {
    let mut encoder = flate2::write::GzEncoder::new(Vec::new(), flate2::Compression::fast());
    encoder.write_all(&tar_of(&[("one/a", b"a"), ("two/b", b"b")])).unwrap();
    let disk = disk_with(encoder.finish().unwrap());
    let first = begin_by_name("bundle.tar.gz".to_string(), "dest".to_string());
    let (result, asked) = run(first, &disk);
    assert_eq!(result, Ok("dest".to_string()));
    assert_eq!(asked[2], ExtractAction::Perform { step: ExtractStep::UnpackTar { gzip: true } });
}

#[test]
fn unsupported_extension_fails_before_anything_is_asked() {
    let first = begin_by_name("release.rar".to_string(), "/tmp/out".to_string());
    let unsupported = ExtractError::UnsupportedFormat { extension: "rar".to_string() };
    assert_eq!(first.0, ExtractState::Finished { outcome: Err(unsupported.clone()) });
    assert_eq!(first.1, ExtractAction::Fail { error: unsupported.clone() });
    let disk = disk_with(Vec::new());
    let (result, asked) = run(first, &disk);
    assert_eq!(result, Err(unsupported));
    assert_eq!(result.unwrap_err().kind(), FailureKind::FormatFailure);
    assert!(asked.is_empty());
}

#[test]
fn missing_zip_fails_with_an_io_failure_and_writes_nothing() {
    let disk = Disk { archive: None, refuse_destination: false, refuse_step: None };
    let (result, asked) = run(begin_by_name("gone.zip".to_string(), "/out".to_string()), &disk);
    assert_eq!(result, Err(io("No such file or directory (os error 2)")));
    assert_eq!(result.unwrap_err().kind(), FailureKind::IoFailure);
    assert_eq!(asked, vec![read("gone.zip")]);
}

#[test]
fn missing_tar_fails_with_an_io_failure_and_only_the_destination_was_created() {
    let disk = Disk { archive: None, refuse_destination: false, refuse_step: None };
    let (result, asked) = run(begin_by_name("gone.tar".to_string(), "/out".to_string()), &disk);
    assert_eq!(result, Err(io("No such file or directory (os error 2)")));
    assert_eq!(asked, vec![create("/out"), read("gone.tar")]);
}

#[test]
fn destination_that_cannot_be_created_fails_the_extraction() {
    let mut disk = disk_with(zip_of(&[("a/b", b"x")]));
    disk.refuse_destination = true;
    let (result, asked) = run(begin_by_name("a.zip".to_string(), "/ro".to_string()), &disk);
    assert_eq!(result, Err(io("Permission denied (os error 13)")));
    assert_eq!(asked, vec![read("a.zip"), create("/ro")]);
    let (result, asked) = run(begin_by_name("a.tar".to_string(), "/ro".to_string()), &disk);
    assert_eq!(result, Err(io("Permission denied (os error 13)")));
    assert_eq!(asked, vec![create("/ro")]);
}

#[test]
fn failed_step_abandons_the_steps_that_follow() {
    let mut disk = disk_with(zip_of(&[("r/1", b"1"), ("r/2", b"2"), ("r/3", b"3")]));
    disk.refuse_step = Some(2);
    let (result, asked) = run(begin_by_name("r.zip".to_string(), "d".to_string()), &disk);
    assert_eq!(result, Err(io("No space left on device (os error 28)")));
    assert_eq!(asked, vec![read("r.zip"), create("d"), write("d/r/1", b"1"), write("d/r/2", b"2")]);
}

#[test]
fn malformed_zip_fails_before_the_destination_is_created() {
    let disk = disk_with(b"not a zip archive at all".to_vec());
    let (result, asked) = run(begin_by_name("bad.zip".to_string(), "/out".to_string()), &disk);
    let error = result.unwrap_err();
    assert!(matches!(error, ExtractError::Malformed { .. }));
    assert_eq!(error.kind(), FailureKind::FormatFailure);
    assert_eq!(asked, vec![read("bad.zip")]);
}

#[test]
fn malformed_tar_is_never_unpacked() {
    let mut bytes = tar_of(&[("ok/first", b"1"), ("ok/second", b"2")]);
    bytes[1024 + 10] ^= 0x55;
    let disk = disk_with(bytes);
    let (result, asked) = run(begin_by_name("bad.tar".to_string(), "/out".to_string()), &disk);
    assert!(matches!(result, Err(ExtractError::Malformed { .. })));
    assert_eq!(asked, vec![create("/out"), read("bad.tar")]);
}

#[test]
fn empty_zip_ends_after_the_destination_is_created() {
    let disk = disk_with(zip_of(&[]));
    let (result, asked) = run(begin_by_name("empty.zip".to_string(), "/out".to_string()), &disk);
    assert_eq!(result, Ok("/out".to_string()));
    assert_eq!(asked, vec![read("empty.zip"), create("/out")]);
}

#[test]
fn format_can_be_given_whatever_the_name_says() {
    let disk = disk_with(zip_of(&[("top/file", b"x")]));
    let first = begin(ArchiveFormat::Zip, "download.bin".to_string(), "/out".to_string());
    assert_eq!(run(first, &disk).0, Ok("top".to_string()));
    let disk = disk_with(tar_of(&[("top/file", b"x")]));
    let first = begin(tar_format("download.bin"), "download.bin".to_string(), "/out".to_string());
    assert_eq!(run(first, &disk).0, Ok("top".to_string()));
}

#[test]
fn tar_reading_of_a_name_goes_by_its_last_extension() {
    assert_eq!(tar_format("a.tar.gz"), ArchiveFormat::TarGzip);
    assert_eq!(tar_format("a.gz"), ArchiveFormat::TarGzip);
    assert_eq!(tar_format("a.tar"), ArchiveFormat::Tar);
    assert_eq!(tar_format("a.gz.tar"), ArchiveFormat::Tar);
    assert_eq!(tar_format("a.tgz"), ArchiveFormat::Tar);
    assert_eq!(tar_format("plain"), ArchiveFormat::Tar);
}

#[test]
fn ended_extraction_stays_ended() {
    let ended = ExtractState::Finished { outcome: Ok("root".to_string()) };
    let (state, action) = advance(Platform::Posix, ended, Err("late".to_string()));
    assert_eq!(state, ExtractState::Finished { outcome: Ok("root".to_string()) });
    assert_eq!(action, ExtractAction::Succeed { root_label: "root".to_string() });
    let failed = ExtractState::Finished { outcome: Err(io("first")) };
    let (state, action) = advance(Platform::Posix, failed, Ok(Vec::new()));
    assert_eq!(state, ExtractState::Finished { outcome: Err(io("first")) });
    assert_eq!(action, ExtractAction::Fail { error: io("first") });
}
