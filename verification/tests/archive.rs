use std::io::{Cursor, Write};
use v_voice::archive::{
    check_binaries, extract_binaries, select_entry, ArchiveError, BinaryFile, Extraction,
};
use zip::write::SimpleFileOptions;
use zip::{CompressionMethod, ZipWriter};

fn archive(entries: &[(&str, &[u8])], method: CompressionMethod) -> Vec<u8> {
    let mut writer = ZipWriter::new(Cursor::new(Vec::new()));
    let options = SimpleFileOptions::default().compression_method(method);
    for (name, bytes) in entries {
        if name.ends_with('/') {
            writer.add_directory(name.trim_end_matches('/'), options).unwrap();
        } else {
            writer.start_file(*name, options).unwrap();
            writer.write_all(bytes).unwrap();
        }
    }
    writer.finish().unwrap().into_inner()
}

fn names(extraction: &Extraction) -> Vec<&str> {
    extraction.files.iter().map(|file| file.name.as_str()).collect()
}

fn file(name: &str) -> BinaryFile {
    BinaryFile { name: name.to_string(), bytes: vec![] }
}

#[test]
fn programs_and_libraries_are_selected() {
    assert_eq!(select_entry("Release/whisper-cli.exe", false).as_deref(), Some("whisper-cli.exe"));
    assert_eq!(select_entry("whisper-server.exe", false).as_deref(), Some("whisper-server.exe"));
    assert_eq!(select_entry("a/b/ggml.dll", false).as_deref(), Some("ggml.dll"));
    assert_eq!(select_entry(".dll", false).as_deref(), Some(".dll"));
    assert_eq!(select_entry("../../evil.dll", false).as_deref(), Some("evil.dll"));
    assert_eq!(select_entry("a/ggml.dll", true), None);
    assert_eq!(select_entry("Release/main.exe", false), None);
    assert_eq!(select_entry("README.md", false), None);
    assert_eq!(select_entry("whisper-cli.exe/", false), None);
    assert_eq!(select_entry("GGML.DLL", false), None);
}

#[test]
fn wanted_files_are_taken_out_of_an_archive() {
    let entries: [(&str, &[u8]); 6] = [
        ("Release/", b""),
        ("Release/bench.exe", b"bench"),
        ("Release/whisper-cli.exe", b"the command"),
        ("Release/ggml.dll", b"a library"),
        ("Release/sub/whisper.dll", b""),
        ("Release/whisper-server.exe", b"the server"),
    ];
    for method in [CompressionMethod::Stored, CompressionMethod::Deflated] {
        let taken = extract_binaries(archive(&entries, method));
        assert!(taken.error.is_none());
        assert_eq!(
            names(&taken),
            vec!["whisper-cli.exe", "ggml.dll", "whisper.dll", "whisper-server.exe"]
        );
        assert_eq!(taken.files[0].bytes, b"the command");
        assert_eq!(taken.files[1].bytes, b"a library");
        assert_eq!(taken.files[2].bytes, b"");
        assert_eq!(taken.files[3].bytes, b"the server");
        assert!(taken.files.iter().all(|file| !file.name.contains('/')));
        assert_eq!(check_binaries(false, false, &taken.files), Ok(()));
    }
}

#[test]
fn an_empty_archive_holds_no_programs() {
    let taken = extract_binaries(archive(&[], CompressionMethod::Stored));
    assert!(taken.error.is_none());
    assert!(taken.files.is_empty());
}

#[test]
fn what_is_no_archive_cannot_be_opened() {
    let taken = extract_binaries(b"<html>not found</html>".to_vec());
    assert!(taken.files.is_empty());
    let error = taken.error.unwrap();
    match &error {
        ArchiveError::Open(e) => {
            assert_eq!(error.message(), format!("Failed to open zip: {}", e))
        }
        _ => panic!("the archive was opened"),
    }
}

#[test]
fn a_damaged_file_ends_the_extraction() {
    let entries: [(&str, &[u8]); 3] = [
        ("first.dll", b"untouched"),
        ("dir/second.dll", b"damaged contents"),
        ("third.dll", b"never reached"),
    ];
    let mut bytes = archive(&entries, CompressionMethod::Stored);
    let at = bytes.windows(7).position(|window| window == b"damaged").unwrap();
    bytes[at] = b'D';
    let taken = extract_binaries(bytes);
    assert_eq!(names(&taken), vec!["first.dll"]);
    let error = taken.error.unwrap();
    match &error {
        ArchiveError::Read { file, error: e } => {
            assert_eq!(file, "second.dll");
            assert_eq!(error.message(), format!("Failed to read second.dll from zip: {}", e));
        }
        _ => panic!("the file was read"),
    }
}

#[test]
fn an_entry_that_cannot_be_opened_ends_the_extraction() {
    let entries: [(&str, &[u8]); 2] = [("first.dll", b"whole"), ("second.dll", b"unknown")];
    let mut bytes = archive(&entries, CompressionMethod::Stored);
    // The method of the second entry in the central directory, ten bytes behind its signature.
    let signature = [0x50u8, 0x4b, 0x01, 0x02];
    let at = bytes.windows(4).rposition(|window| window == signature).unwrap();
    bytes[at + 10] = 97;
    let taken = extract_binaries(bytes);
    assert_eq!(names(&taken), vec!["first.dll"]);
    let error = taken.error.unwrap();
    match &error {
        ArchiveError::Entry(e) => {
            assert_eq!(error.message(), format!("Zip entry error: {}", e))
        }
        _ => panic!("the entry was opened"),
    }
}

#[test]
fn both_programs_have_to_be_there() {
    let no_cli = "whisper-cli.exe not found in the downloaded zip archive";
    let no_server = "whisper-server.exe not found in the downloaded zip archive";
    assert_eq!(check_binaries(false, false, &vec![]), Err(no_cli.to_string()));
    assert_eq!(check_binaries(false, true, &vec![]), Err(no_cli.to_string()));
    assert_eq!(check_binaries(true, false, &vec![]), Err(no_server.to_string()));
    assert_eq!(check_binaries(true, true, &vec![]), Ok(()));
    let cli = vec![file("whisper-cli.exe")];
    assert_eq!(check_binaries(false, false, &cli), Err(no_server.to_string()));
    assert_eq!(check_binaries(false, true, &cli), Ok(()));
    let server = vec![file("ggml.dll"), file("whisper-server.exe")];
    assert_eq!(check_binaries(false, false, &server), Err(no_cli.to_string()));
    assert_eq!(check_binaries(true, false, &server), Ok(()));
}
