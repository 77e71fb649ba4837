use cnvrt::archive::{extract_binary_from_tar_xz, extract_binary_from_zip};
use cnvrt::error::ProvisionError;
use std::io::{Read, Write};

fn build_zip(entries: &[(&str, &[u8])], dirs: &[&str]) -> Vec<u8> {
    let mut w = zip::ZipWriter::new(std::io::Cursor::new(Vec::new()));
    let options = zip::write::SimpleFileOptions::default();
    for d in dirs {
        w.add_directory(*d, options).unwrap();
    }
    for (name, data) in entries {
        w.start_file(*name, options).unwrap();
        w.write_all(data).unwrap();
    }
    w.finish().unwrap().into_inner()
}

fn build_tar_xz(entries: &[(&str, &[u8])]) -> Vec<u8> {
    let mut b = tar::Builder::new(Vec::new());
    for (path, data) in entries {
        let mut header = tar::Header::new_gnu();
        header.set_size(data.len() as u64);
        header.set_mode(0o644);
        header.set_cksum();
        b.append_data(&mut header, *path, *data).unwrap();
    }
    let tar_bytes = b.into_inner().unwrap();
    let mut enc = xz2::read::XzEncoder::new(std::io::Cursor::new(tar_bytes), 6);
    let mut out = Vec::new();
    enc.read_to_end(&mut out).unwrap();
    out
}

#[test]
fn zip_extraction_picks_the_binary_entry() {
    let archive = build_zip(
        &[
            ("doc/readme.txt", b"docs"),
            ("bin/ffmpeg", &[1, 2, 3, 4]),
            ("bin/ffprobe", &[9]),
        ],
        &[],
    );
    assert_eq!(extract_binary_from_zip(&archive).unwrap(), vec![1, 2, 3, 4]);
}

#[test]
fn zip_extraction_skips_directory_entries() {
    // A directory whose name holds the binary name must not be taken for
    // the binary itself.
    let archive = build_zip(&[("ffmpeg-6.1/ffmpeg.exe", &[7, 7])], &["ffmpeg-6.1"]);
    assert_eq!(extract_binary_from_zip(&archive).unwrap(), vec![7, 7]);
}

#[test]
fn zip_without_binary_is_a_missing_entry() {
    let archive = build_zip(&[("doc/readme.txt", b"docs")], &[]);
    assert!(matches!(
        extract_binary_from_zip(&archive),
        Err(ProvisionError::MissingEntry)
    ));
}

#[test]
fn unreadable_zip_is_an_extraction_failure() {
    let garbage = vec![1u8, 2, 3, 4, 5, 6];
    assert!(matches!(
        extract_binary_from_zip(&garbage),
        Err(ProvisionError::ExtractionFailed)
    ));
}

#[test]
fn tar_extraction_picks_by_file_name() {
    // The leading directory holds the binary name too; only the entry
    // whose file name is exactly the binary name is taken.
    let archive = build_tar_xz(&[
        ("ffmpeg-6.0/README", b"read me"),
        ("ffmpeg-6.0/ffmpeg.1", b"manual"),
        ("ffmpeg-6.0/ffmpeg", &[5, 6, 7]),
    ]);
    assert_eq!(extract_binary_from_tar_xz(&archive).unwrap(), vec![5, 6, 7]);
}

#[test]
fn tar_without_binary_is_a_missing_entry() {
    let archive = build_tar_xz(&[("ffmpeg-6.0/README", b"read me")]);
    assert!(matches!(
        extract_binary_from_tar_xz(&archive),
        Err(ProvisionError::MissingEntry)
    ));
}

#[test]
fn unreadable_tar_is_an_extraction_failure() {
    let garbage = vec![0u8; 32];
    assert!(matches!(
        extract_binary_from_tar_xz(&garbage),
        Err(ProvisionError::ExtractionFailed)
    ));
}
