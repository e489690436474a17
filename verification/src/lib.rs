//! The core of an adapter between byte streams and a streaming archive
//! engine.
//!
//! The crate performs no I/O and makes no call into the engine. A
//! [`reader::ArchiveReader`] or a [`writer::ArchiveWriter`] is a state
//! machine: it names the next request to make of the engine or of the
//! wrapped stream, takes the reply, and decides what follows. A driver
//! around it makes the calls. [`bridge`] decides what the engine's callbacks
//! report, [`error`] what a failed call means, and [`metadata`] how the
//! record of a file is made.

use vstd::prelude::*;

pub mod bridge;
pub mod carchive;
pub mod error;
pub mod kinds;
pub mod metadata;
pub mod reader;
pub mod reader_laws;
pub mod text;
pub mod writer;
pub mod writer_laws;

pub use carchive::{
    BUFFER_SIZE, ARCHIVE_EOF, ARCHIVE_OK, ARCHIVE_RETRY, ARCHIVE_WARN, ARCHIVE_FAILED,
    ARCHIVE_FATAL, AE_IFMT, AE_IFREG, AE_IFLNK, AE_IFSOCK, AE_IFCHR, AE_IFBLK, AE_IFDIR,
    AE_IFIFO, ARCHIVE_FILTER_NONE, ARCHIVE_FILTER_GZIP, ARCHIVE_FILTER_BZIP2,
    ARCHIVE_FILTER_COMPRESS, ARCHIVE_FILTER_PROGRAM, ARCHIVE_FILTER_LZMA, ARCHIVE_FILTER_XZ,
    ARCHIVE_FILTER_UU, ARCHIVE_FILTER_RPM, ARCHIVE_FILTER_LZIP, ARCHIVE_FILTER_LRZIP,
    ARCHIVE_FILTER_LZOP, ARCHIVE_FILTER_GRZIP, ARCHIVE_FILTER_LZ4, ARCHIVE_FILTER_ZSTD,
    ARCHIVE_FORMAT_CPIO, ARCHIVE_FORMAT_CPIO_POSIX, ARCHIVE_FORMAT_CPIO_BIN_LE,
    ARCHIVE_FORMAT_CPIO_SVR4_NOCRC, ARCHIVE_FORMAT_CPIO_PWB, ARCHIVE_FORMAT_SHAR,
    ARCHIVE_FORMAT_SHAR_DUMP, ARCHIVE_FORMAT_TAR, ARCHIVE_FORMAT_TAR_USTAR,
    ARCHIVE_FORMAT_TAR_PAX_INTERCHANGE, ARCHIVE_FORMAT_TAR_PAX_RESTRICTED,
    ARCHIVE_FORMAT_TAR_GNUTAR, ARCHIVE_FORMAT_ISO9660, ARCHIVE_FORMAT_ZIP,
    ARCHIVE_FORMAT_EMPTY, ARCHIVE_FORMAT_MTREE, ARCHIVE_FORMAT_RAW, ARCHIVE_FORMAT_XAR,
    ARCHIVE_FORMAT_CAB, ARCHIVE_FORMAT_RAR, ARCHIVE_FORMAT_7ZIP, ARCHIVE_FORMAT_WARC,
};
pub use error::Error;
pub use kinds::{Filter, Format};
pub use metadata::Metadata;
