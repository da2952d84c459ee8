use std::io::{Cursor, Write};

use replit_xray::archive::{extract, ArchiveError};

fn archive_with(entries: &[(&str, &[u8])]) -> Vec<u8> {
    let mut w = zip::ZipWriter::new(Cursor::new(Vec::new()));
    for (name, data) in entries {
        w.start_file(*name, zip::write::FileOptions::default()).unwrap();
        w.write_all(data).unwrap();
    }
    w.finish().unwrap().into_inner()
}

#[test]
fn extract_present_member_returns_its_bytes() {
    let bytes = archive_with(&[("readme.md", b"docs"), ("present", b"\x7fELF binary bytes")]);
    assert_eq!(extract(&bytes, "present").unwrap(), b"\x7fELF binary bytes".to_vec());
    assert_eq!(extract(&bytes, "readme.md").unwrap(), b"docs".to_vec());
}

#[test]
fn extract_missing_member_is_not_found() {
    let bytes = archive_with(&[("present", b"abc")]);
    assert_eq!(extract(&bytes, "missing"), Err(ArchiveError::NotFound));
    assert_eq!(extract(&bytes, "presen"), Err(ArchiveError::NotFound));
}

#[test]
fn extract_from_malformed_archive_is_not_found() {
    assert_eq!(extract(b"not a zip archive", "present"), Err(ArchiveError::NotFound));
    assert_eq!(extract(&[], "present"), Err(ArchiveError::NotFound));
}

#[test]
fn extract_entry_marked_aes_without_encryption_is_not_found() {
    let mut w = zip::ZipWriter::new(Cursor::new(Vec::new()));
    let options = zip::write::FileOptions::default()
        .compression_method(zip::CompressionMethod::Stored);
    w.start_file_with_extra_data("present", options).unwrap();
    // An extra field shaped like the AES one (length 7, vendor version 1,
    // vendor "AE", strength 1, stored) under a free id, renamed below.
    let field = [0xef, 0xbe, 0x07, 0x00, 0x01, 0x00, 0x41, 0x45, 0x01, 0x00, 0x00];
    w.write_all(&field).unwrap();
    w.end_extra_data().unwrap();
    w.write_all(b"abc").unwrap();
    let mut bytes = w.finish().unwrap().into_inner();
    let mut renamed = 0;
    for i in 0..bytes.len() - field.len() + 1 {
        if bytes[i..i + field.len()] == field {
            bytes[i] = 0x01;
            bytes[i + 1] = 0x99;
            renamed += 1;
        }
    }
    assert_eq!(renamed, 2);
    assert_eq!(extract(&bytes, "present"), Err(ArchiveError::NotFound));
}
