//! Extraction of one named member from a release archive.
use vstd::prelude::*;

verus! {

/// The bytes that the zip archive `archive` stores under `name`, or `None`
/// when the archive cannot be read or holds no such entry.
pub uninterp spec fn zip_member(archive: Seq<u8>, name: Seq<char>) -> Option<Seq<u8>>;

/// Relies on zip's `ZipArchive::new`, `ZipArchive::by_name_decrypt` (with an
/// empty password, which is discarded for an entry that is not encrypted) and
/// reading the entry to its end: the decompressed content of the entry named
/// exactly `name`, or nothing when the archive is malformed, has no such
/// entry, or the entry cannot be read without a password.
#[verifier::external_body]
fn read_zip_member(archive: &[u8], name: &str) -> (r: Option<Vec<u8>>)
    ensures
        match r {
            Some(v) => zip_member(archive@, name@) == Some(v@),
            None => zip_member(archive@, name@) is None,
        },
{
    let mut zip = zip::ZipArchive::new(std::io::Cursor::new(archive)).ok()?;
    let mut entry = zip.by_name_decrypt(name, &[]).ok()?.ok()?;
    let mut buf: Vec<u8> = Vec::new();
    std::io::Read::read_to_end(&mut entry, &mut buf).ok()?;
    Some(buf)
}

/// Why no member could be extracted.
#[derive(Debug, Clone, Copy, PartialEq, Eq)]
pub enum ArchiveError {
    /// The archive is malformed or has no entry of that name.
    NotFound,
}

/// The content of the archive's entry named exactly `member`.
pub fn extract(archive: &[u8], member: &str) -> (r: Result<Vec<u8>, ArchiveError>)
    ensures
        match r {
            Ok(v) => zip_member(archive@, member@) == Some(v@),
            Err(e) => e == ArchiveError::NotFound && zip_member(archive@, member@) is None,
        },
{
    match read_zip_member(archive, member) {
        Some(bytes) => Ok(bytes),
        None => Err(ArchiveError::NotFound),
    }
}

} // verus!
