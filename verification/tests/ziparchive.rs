use cc_unzip_media::zipmod::ziparchive::{count_zip_entries, zip_extraction_step, ZipStep};
use std::io::{Cursor, Write};
use zip::write::SimpleFileOptions;
use zip::ZipWriter;

fn sample_archive() -> Vec<u8> {
    let mut writer = ZipWriter::new(Cursor::new(Vec::new()));
    writer.add_directory("photos/", SimpleFileOptions::default()).unwrap();
    writer.start_file("photos/a.jpg", SimpleFileOptions::default()).unwrap();
    writer.write_all(b"not really a jpeg, but plenty of bytes bytes bytes bytes").unwrap();
    writer
        .start_file("notes.txt", SimpleFileOptions::default().compression_method(zip::CompressionMethod::Stored))
        .unwrap();
    writer.write_all(b"hello").unwrap();
    writer.finish().unwrap().into_inner()
}

#[test]
fn counts_the_entries() {
    assert_eq!(count_zip_entries(&sample_archive()), Ok(3));
}

#[test]
fn refuses_bytes_that_are_no_archive() {
    assert!(count_zip_entries(b"this is not a zip archive").is_err());
    assert!(count_zip_entries(&[]).is_err());
}

#[test]
fn directories_are_created_and_files_unpacked() {
    let archive = sample_archive();
    match zip_extraction_step(&archive, 0) {
        ZipStep::CreateDir { name } => assert_eq!(name, "photos/"),
        _ => panic!("expected a directory"),
    }
    match zip_extraction_step(&archive, 1) {
        ZipStep::WriteFile { name, data } => {
            assert_eq!(name, "photos/a.jpg");
            assert_eq!(data, b"not really a jpeg, but plenty of bytes bytes bytes bytes".to_vec());
        }
        _ => panic!("expected a file"),
    }
    match zip_extraction_step(&archive, 2) {
        ZipStep::WriteFile { name, data } => {
            assert_eq!(name, "notes.txt");
            assert_eq!(data, b"hello".to_vec());
        }
        _ => panic!("expected a file"),
    }
}

#[test]
fn entries_past_the_end_are_unreadable() {
    let archive = sample_archive();
    assert!(matches!(zip_extraction_step(&archive, 3), ZipStep::Unreadable { .. }));
    assert!(matches!(zip_extraction_step(b"garbage", 0), ZipStep::Unreadable { .. }));
}
