use mamba_bootstrap::archive::{decode_archive, tar_from_decoded};
use mamba_bootstrap::error::BootstrapError;
use std::io::{Read, Write};

fn bzip2_of(data: &[u8]) -> Vec<u8> {
    let mut encoder = bzip2::write::BzEncoder::new(Vec::new(), bzip2::Compression::fast());
    encoder.write_all(data).unwrap();
    encoder.finish().unwrap()
}

fn tar_of(files: &[(&str, &[u8])]) -> Vec<u8> {
    let mut builder = tar::Builder::new(Vec::new());
    for (path, content) in files {
        let mut header = tar::Header::new_gnu();
        header.set_size(content.len() as u64);
        header.set_mode(0o755);
        builder.append_data(&mut header, path, *content).unwrap();
    }
    builder.into_inner().unwrap()
}

#[test]
fn archive_with_two_files_comes_out_as_it_went_in() {
    let tar = tar_of(&[("a", b"first file"), ("b/c", b"second file, deeper")]);
    let decoded = decode_archive(&bzip2_of(&tar)).unwrap();
    assert_eq!(decoded, tar);

    let mut archive = tar::Archive::new(&decoded[..]);
    let mut seen: Vec<(String, Vec<u8>)> = Vec::new();
    for entry in archive.entries().unwrap() {
        let mut entry = entry.unwrap();
        let path = entry.path().unwrap().to_string_lossy().into_owned();
        let mut content = Vec::new();
        entry.read_to_end(&mut content).unwrap();
        seen.push((path, content));
    }
    assert_eq!(
        seen,
        vec![
            ("a".to_string(), b"first file".to_vec()),
            ("b/c".to_string(), b"second file, deeper".to_vec()),
        ]
    );
}

#[test]
fn decompressed_bytes_differ_from_the_compressed() {
    let packed = bzip2_of(b"hello hello hello hello");
    assert_ne!(packed, b"hello hello hello hello".to_vec());
    assert_eq!(decode_archive(&packed), Ok(b"hello hello hello hello".to_vec()));
}

#[test]
fn empty_content_decompresses_to_nothing() {
    assert_eq!(decode_archive(&bzip2_of(b"")), Ok(Vec::new()));
}

#[test]
fn bytes_that_are_no_bzip2_stream_are_an_archive_error() {
    assert_eq!(decode_archive(b"plain text"), Err(BootstrapError::Archive));
    assert_eq!(decode_archive(&[]), Err(BootstrapError::Archive));
    assert_eq!(decode_archive(&tar_of(&[("a", b"x")])), Err(BootstrapError::Archive));
}

#[test]
fn stream_that_ends_early_is_an_archive_error() {
    let packed = bzip2_of(b"some content that is cut off in the middle of the stream");
    assert_eq!(decode_archive(&packed[..packed.len() / 2]), Err(BootstrapError::Archive));
}

#[test]
fn decompression_outcome_becomes_a_result() {
    assert_eq!(tar_from_decoded(Some(vec![7, 8])), Ok(vec![7, 8]));
    assert_eq!(tar_from_decoded(None), Err(BootstrapError::Archive));
}
