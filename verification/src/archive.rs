//! The bundle as an in-memory archive: opening it, and the ways unpacking it can fail.

use std::io::Cursor;
use vstd::prelude::*;
use zip::result::ZipError;
use zip::ZipArchive;

verus! {

/// `zip::ZipArchive`, the reader over an archive's directory. Opaque here: it is
/// opened by this library and handed to the caller, who unpacks it.
#[verifier::external_type_specification]
#[verifier::external_body]
#[verifier::reject_recursive_types(R)]
pub struct ExZipArchive<R>(ZipArchive<R>);

/// `std::io::Cursor`, which lets the archive reader seek within a byte slice.
#[verifier::external_type_specification]
#[verifier::external_body]
#[verifier::reject_recursive_types(T)]
pub struct ExCursor<T>(Cursor<T>);

/// `zip::result::ZipError`, the archive reader's error.
#[verifier::external_type_specification]
#[verifier::external_body]
pub struct ExZipError(ZipError);

/// An archive opened over the bytes of a bundle.
pub type OpenArchive<'a> = ZipArchive<Cursor<&'a [u8]>>;

/// Whether `zip::ZipArchive::new` accepts `bytes` as an archive.
pub uninterp spec fn zip_archive_opens(bytes: Seq<u8>) -> bool;

/// The bytes that an opened archive reads its entries from.
pub uninterp spec fn archive_bytes(archive: OpenArchive<'_>) -> Seq<u8>;

/// Calls `zip::ZipArchive::new` on a cursor over `bytes`. The reader looks for the
/// end-of-central-directory record and walks the central directory; it touches
/// nothing but the bytes it is given, so whether it succeeds is a function of
/// those bytes alone. The archive it returns keeps the cursor, and so reads its
/// entries from those same bytes. The contract claims these two things and no
/// more.
#[verifier::external_body]
pub(crate) fn open_archive<'a>(bytes: &'a [u8]) -> (opened: Result<OpenArchive<'a>, ZipError>)
    ensures
        opened is Ok == zip_archive_opens(bytes@),
        opened matches Ok(archive) ==> archive_bytes(archive) == bytes@,
{
    ZipArchive::new(Cursor::new(bytes))
}

/// The two kinds of failure an installation can end in.
#[derive(Debug, Clone, Copy, PartialEq, Eq, Hash, Structural)]
pub enum InstallError {
    /// The destination could not be created or written.
    Filesystem,
    /// The bundle is not an archive that can be unpacked.
    Archive,
}

/// Why unpacking an opened archive failed, as the archive reader reports it.
#[derive(Debug, Clone, Copy, PartialEq, Eq, Hash, Structural)]
pub enum ExtractFault {
    /// Reading an entry or writing it to disk failed.
    Io,
    /// An entry is malformed, or its path would leave the destination.
    InvalidArchive,
    /// An entry uses a feature the reader does not support.
    UnsupportedArchive,
    /// An entry listed in the directory could not be found.
    FileNotFound,
}

impl ExtractFault {
    /// The kind of installation failure this fault amounts to.
    pub open spec fn kind_spec(self) -> InstallError {
        match self {
            ExtractFault::Io => InstallError::Filesystem,
            _ => InstallError::Archive,
        }
    }

    /// The kind of installation failure this fault amounts to: an I/O fault is a
    /// filesystem failure, every other fault is a failure of the archive.
    pub fn kind(self) -> (kind: InstallError)
        ensures
            kind == self.kind_spec(),
    {
        match self {
            ExtractFault::Io => InstallError::Filesystem,
            ExtractFault::InvalidArchive => InstallError::Archive,
            ExtractFault::UnsupportedArchive => InstallError::Archive,
            ExtractFault::FileNotFound => InstallError::Archive,
        }
    }
}

} // verus!
