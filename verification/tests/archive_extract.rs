use cli_framework::self_install::archive::{archive_format, extract_binary, ArchiveError, ArchiveFormat};
use std::io::Write;

fn tar_gz(entries: &[(&str, &[u8])]) -> Vec<u8> {
    let enc = flate2::write::GzEncoder::new(Vec::new(), flate2::Compression::default());
    let mut b = tar::Builder::new(enc);
    for (name, data) in entries {
        let mut h = tar::Header::new_gnu();
        h.set_path(name).unwrap();
        h.set_size(data.len() as u64);
        h.set_mode(0o755);
        h.set_cksum();
        b.append(&h, *data).unwrap();
    }
    b.into_inner().unwrap().finish().unwrap()
}

fn zip_of(entries: &[(&str, &[u8])]) -> Vec<u8> {
    let mut w = zip::ZipWriter::new(std::io::Cursor::new(Vec::new()));
    for (name, data) in entries {
        w.start_file(*name, zip::write::SimpleFileOptions::default()).unwrap();
        w.write_all(data).unwrap();
    }
    w.finish().unwrap().into_inner()
}

#[test]
fn formats_follow_the_file_name() {
    assert_eq!(archive_format("demo-1.0-x86_64.TAR.GZ"), Some(ArchiveFormat::TarGz));
    assert_eq!(archive_format("demo.tgz"), Some(ArchiveFormat::TarGz));
    assert_eq!(archive_format("demo.zip"), Some(ArchiveFormat::Zip));
    assert_eq!(archive_format("demo.tar.xz"), None);
}

#[test]
fn the_binary_comes_out_of_a_tar_gz() {
    let data = tar_gz(&[("demo-1.0/README", b"hi"), ("demo-1.0/demo", b"\x7fELF")]);
    let out = extract_binary("/tmp/demo.tar.gz", "demo.tar.gz", &data, "demo").unwrap();
    assert_eq!(out, b"\x7fELF");
}

#[test]
fn the_binary_comes_out_of_a_zip() {
    let data = zip_of(&[("demo.exe", b"MZ")]);
    let out = extract_binary("C:/dl/demo.zip", "demo.zip", &data, "demo.exe").unwrap();
    assert_eq!(out, b"MZ");
}

#[test]
fn a_missing_binary_and_an_unknown_format_are_errors() {
    let data = tar_gz(&[("other", b"x")]);
    match extract_binary("/tmp/a.tgz", "a.tgz", &data, "demo") {
        Err(ArchiveError::MissingBinary { archive, binary }) => {
            assert_eq!(archive, "/tmp/a.tgz");
            assert_eq!(binary, "demo");
        }
        other => panic!("unexpected {other:?}"),
    }
    assert!(matches!(
        extract_binary("/tmp/a.rar", "a.rar", &data, "demo"),
        Err(ArchiveError::UnknownFormat(_))
    ));
    assert!(matches!(
        extract_binary("/tmp/a.zip", "a.zip", b"not a zip", "demo"),
        Err(ArchiveError::Corrupt { .. })
    ));
}

#[test]
fn an_unsafe_entry_refuses_the_whole_archive() {
    let data = zip_of(&[("demo", b"MZ"), ("../evil", b"x")]);
    match extract_binary("/tmp/a.zip", "a.zip", &data, "demo") {
        Err(ArchiveError::UnsafeEntry { entry, .. }) => assert_eq!(entry, "../evil"),
        other => panic!("unexpected {other:?}"),
    }
}
