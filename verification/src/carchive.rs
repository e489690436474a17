//! The vocabulary shared with the archive engine: its status codes, its
//! format, filter and file-type constants, and the plain records in which the
//! engine's answers travel.

use libc::{c_int, gid_t, mode_t, uid_t};
use vstd::prelude::*;
use vstd::utf8::{decode_utf8, valid_utf8};

verus! {

/// Size of the hand-off window between a stream and the engine, in bytes.
pub const BUFFER_SIZE: usize = 16384;

pub const ARCHIVE_EOF: c_int = 1;
pub const ARCHIVE_OK: c_int = 0;
pub const ARCHIVE_RETRY: c_int = -10;
pub const ARCHIVE_WARN: c_int = -20;
pub const ARCHIVE_FAILED: c_int = -25;
pub const ARCHIVE_FATAL: c_int = -30;

pub const AE_IFMT: mode_t = 0o170000;
pub const AE_IFREG: mode_t = 0o100000;
pub const AE_IFLNK: mode_t = 0o120000;
pub const AE_IFSOCK: mode_t = 0o140000;
pub const AE_IFCHR: mode_t = 0o020000;
pub const AE_IFBLK: mode_t = 0o060000;
pub const AE_IFDIR: mode_t = 0o040000;
pub const AE_IFIFO: mode_t = 0o010000;

pub const ARCHIVE_FILTER_NONE: c_int = 0;
pub const ARCHIVE_FILTER_GZIP: c_int = 1;
pub const ARCHIVE_FILTER_BZIP2: c_int = 2;
pub const ARCHIVE_FILTER_COMPRESS: c_int = 3;
pub const ARCHIVE_FILTER_PROGRAM: c_int = 4;
pub const ARCHIVE_FILTER_LZMA: c_int = 5;
pub const ARCHIVE_FILTER_XZ: c_int = 6;
pub const ARCHIVE_FILTER_UU: c_int = 7;
pub const ARCHIVE_FILTER_RPM: c_int = 8;
pub const ARCHIVE_FILTER_LZIP: c_int = 9;
pub const ARCHIVE_FILTER_LRZIP: c_int = 10;
pub const ARCHIVE_FILTER_LZOP: c_int = 11;
pub const ARCHIVE_FILTER_GRZIP: c_int = 12;
pub const ARCHIVE_FILTER_LZ4: c_int = 13;
pub const ARCHIVE_FILTER_ZSTD: c_int = 14;

pub const ARCHIVE_FORMAT_CPIO: c_int = 0x10000;
pub const ARCHIVE_FORMAT_CPIO_POSIX: c_int = 0x10001;
pub const ARCHIVE_FORMAT_CPIO_BIN_LE: c_int = 0x10002;
pub const ARCHIVE_FORMAT_CPIO_SVR4_NOCRC: c_int = 0x10004;
pub const ARCHIVE_FORMAT_CPIO_PWB: c_int = 0x10007;
pub const ARCHIVE_FORMAT_SHAR: c_int = 0x20000;
pub const ARCHIVE_FORMAT_SHAR_DUMP: c_int = 0x20002;
pub const ARCHIVE_FORMAT_TAR: c_int = 0x30000;
pub const ARCHIVE_FORMAT_TAR_USTAR: c_int = 0x30001;
pub const ARCHIVE_FORMAT_TAR_PAX_INTERCHANGE: c_int = 0x30002;
pub const ARCHIVE_FORMAT_TAR_PAX_RESTRICTED: c_int = 0x30003;
pub const ARCHIVE_FORMAT_TAR_GNUTAR: c_int = 0x30004;
pub const ARCHIVE_FORMAT_ISO9660: c_int = 0x40000;
pub const ARCHIVE_FORMAT_ZIP: c_int = 0x50000;
pub const ARCHIVE_FORMAT_EMPTY: c_int = 0x60000;
pub const ARCHIVE_FORMAT_MTREE: c_int = 0x80000;
pub const ARCHIVE_FORMAT_RAW: c_int = 0x90000;
pub const ARCHIVE_FORMAT_XAR: c_int = 0xA0000;
pub const ARCHIVE_FORMAT_CAB: c_int = 0xC0000;
pub const ARCHIVE_FORMAT_RAR: c_int = 0xD0000;
pub const ARCHIVE_FORMAT_7ZIP: c_int = 0xE0000;
pub const ARCHIVE_FORMAT_WARC: c_int = 0xF0000;

/// A status counts as success when it is "ok" or "warn": a warning is not
/// told apart from a clean success.
pub open spec fn status_ok(code: c_int) -> bool {
    code == ARCHIVE_OK || code == ARCHIVE_WARN
}

/// Whether an engine status counts as success.
pub fn is_success(code: c_int) -> (ok: bool)
    ensures
        ok == status_ok(code),
{
    code == ARCHIVE_OK || code == ARCHIVE_WARN
}

/// The engine's diagnostic state after a call: its last error string, as
/// the bytes of the C string (`None` where the engine holds none), and its
/// last `errno`.
#[derive(Debug, PartialEq, Eq)]
pub struct Diagnostic {
    pub message: Option<Vec<u8>>,
    pub errno: c_int,
}

/// What a wrapped stream said when one of its operations failed.
#[derive(Debug, PartialEq, Eq)]
pub struct StreamFailure {
    pub description: String,
    pub os_code: Option<c_int>,
}

impl Clone for StreamFailure {
    fn clone(&self) -> (copy: Self)
        ensures
            copy.description@ == self.description@,
            copy.os_code == self.os_code,
    {
        StreamFailure { description: self.description.clone(), os_code: self.os_code }
    }
}

/// What the accessors of an engine entry report.
#[derive(Debug, PartialEq, Eq)]
pub struct EntryRecord {
    /// The bytes of the path name, `None` where the engine has none.
    pub pathname: Option<Vec<u8>>,
    pub size: i64,
    pub filetype: mode_t,
    pub perm: mode_t,
    pub ctime: i64,
    pub ctime_nsec: i64,
    pub atime: i64,
    pub atime_nsec: i64,
    pub mtime: i64,
    pub mtime_nsec: i64,
    pub uid: uid_t,
    pub gid: gid_t,
}

/// What the filesystem reports of an opened file.
#[derive(Clone, Copy, Debug, PartialEq, Eq)]
pub struct FileAttributes {
    pub is_dir: bool,
    pub is_file: bool,
    pub is_symlink: bool,
    pub size: u64,
    pub mode: mode_t,
    pub ctime: i64,
    pub ctime_nsec: i64,
    pub atime: i64,
    pub atime_nsec: i64,
    pub mtime: i64,
    pub mtime_nsec: i64,
    pub uid: uid_t,
    pub gid: gid_t,
}

/// The text that lossy UTF-8 decoding makes of bytes that are not valid
/// UTF-8.
pub uninterp spec fn utf8_lossy(bytes: Seq<u8>) -> Seq<char>;

/// The text that lossy UTF-8 decoding makes of a byte string: the text that
/// the bytes encode where they are valid UTF-8, and else a text with
/// replacement characters in it.
pub open spec fn lossy_text(bytes: Seq<u8>) -> Seq<char> {
    if valid_utf8(bytes) {
        decode_utf8(bytes)
    } else {
        utf8_lossy(bytes)
    }
}

/// `String::from_utf8_lossy` of std: decodes bytes as UTF-8 and never fails.
/// Bytes that are valid UTF-8 give the text that they encode. Other bytes
/// give a text in which each invalid sequence is replaced by U+FFFD; of that
/// text the contract says only that it depends on the bytes alone.
#[verifier::external_body]
pub(crate) fn decode_lossy(bytes: &Vec<u8>) -> (text: String)
    ensures
        valid_utf8(bytes@) ==> text@ == decode_utf8(bytes@),
        !valid_utf8(bytes@) ==> text@ == utf8_lossy(bytes@),
{
    String::from_utf8_lossy(bytes).into_owned()
}

} // verus!
