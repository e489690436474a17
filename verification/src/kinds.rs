//! The filters and formats that the engine knows, as closed enumerations.
//! Their raw integers are the engine's own; they are passed on as they are.

use crate::carchive::{
    ARCHIVE_FILTER_BZIP2, ARCHIVE_FILTER_COMPRESS, ARCHIVE_FILTER_GRZIP, ARCHIVE_FILTER_GZIP,
    ARCHIVE_FILTER_LRZIP, ARCHIVE_FILTER_LZ4, ARCHIVE_FILTER_LZIP, ARCHIVE_FILTER_LZMA,
    ARCHIVE_FILTER_LZOP, ARCHIVE_FILTER_NONE, ARCHIVE_FILTER_PROGRAM, ARCHIVE_FILTER_RPM,
    ARCHIVE_FILTER_UU, ARCHIVE_FILTER_XZ, ARCHIVE_FILTER_ZSTD, ARCHIVE_FORMAT_7ZIP,
    ARCHIVE_FORMAT_CAB, ARCHIVE_FORMAT_CPIO, ARCHIVE_FORMAT_CPIO_BIN_LE,
    ARCHIVE_FORMAT_CPIO_POSIX, ARCHIVE_FORMAT_CPIO_PWB, ARCHIVE_FORMAT_CPIO_SVR4_NOCRC,
    ARCHIVE_FORMAT_EMPTY, ARCHIVE_FORMAT_ISO9660, ARCHIVE_FORMAT_MTREE, ARCHIVE_FORMAT_RAR,
    ARCHIVE_FORMAT_RAW, ARCHIVE_FORMAT_SHAR, ARCHIVE_FORMAT_SHAR_DUMP, ARCHIVE_FORMAT_TAR,
    ARCHIVE_FORMAT_TAR_GNUTAR, ARCHIVE_FORMAT_TAR_PAX_INTERCHANGE,
    ARCHIVE_FORMAT_TAR_PAX_RESTRICTED, ARCHIVE_FORMAT_TAR_USTAR, ARCHIVE_FORMAT_WARC,
    ARCHIVE_FORMAT_XAR, ARCHIVE_FORMAT_ZIP,
};
use crate::error::Error;
use libc::c_int;
use vstd::prelude::*;

verus! {

/// A compression layer around the archive's byte stream.
#[derive(Clone, Copy, Debug, PartialEq, Eq, Structural)]
pub enum Filter {
    NoFilter,
    Gzip,
    Bzip2,
    Compress,
    Program,
    Lzma,
    Xz,
    Uu,
    Rpm,
    Lzip,
    Lrzip,
    Lzop,
    Grzip,
    Lz4,
    Zstd,
}

/// A container layout.
#[derive(Clone, Copy, Debug, PartialEq, Eq, Structural)]
pub enum Format {
    Cpio,
    CpioPosix,
    CpioBinLe,
    CpioSvr4Nocrc,
    CpioPwb,
    Shar,
    SharDump,
    Tar,
    TarUstar,
    TarPaxInterchange,
    TarPaxRestricted,
    TarGnutar,
    Iso9660,
    Zip,
    Empty,
    Mtree,
    Raw,
    Xar,
    Cab,
    Rar,
    SevenZip,
    Warc,
}

impl Filter {
    /// The engine's integer for this filter.
    pub open spec fn raw(self) -> c_int {
        match self {
            Filter::NoFilter => ARCHIVE_FILTER_NONE,
            Filter::Gzip => ARCHIVE_FILTER_GZIP,
            Filter::Bzip2 => ARCHIVE_FILTER_BZIP2,
            Filter::Compress => ARCHIVE_FILTER_COMPRESS,
            Filter::Program => ARCHIVE_FILTER_PROGRAM,
            Filter::Lzma => ARCHIVE_FILTER_LZMA,
            Filter::Xz => ARCHIVE_FILTER_XZ,
            Filter::Uu => ARCHIVE_FILTER_UU,
            Filter::Rpm => ARCHIVE_FILTER_RPM,
            Filter::Lzip => ARCHIVE_FILTER_LZIP,
            Filter::Lrzip => ARCHIVE_FILTER_LRZIP,
            Filter::Lzop => ARCHIVE_FILTER_LZOP,
            Filter::Grzip => ARCHIVE_FILTER_GRZIP,
            Filter::Lz4 => ARCHIVE_FILTER_LZ4,
            Filter::Zstd => ARCHIVE_FILTER_ZSTD,
        }
    }

    /// The highest compression level of this filter, where it has levels.
    pub open spec fn top(self) -> Option<u32> {
        match self {
            Filter::Zstd => Some(22),
            Filter::Bzip2
            | Filter::Gzip
            | Filter::Lrzip
            | Filter::Xz
            | Filter::Lz4
            | Filter::Lzip
            | Filter::Lzma
            | Filter::Lzop => Some(9),
            _ => None,
        }
    }

    /// The engine's integer for this filter.
    pub fn code(self) -> (code: c_int)
        ensures
            code == self.raw(),
    {
        match self {
            Filter::NoFilter => ARCHIVE_FILTER_NONE,
            Filter::Gzip => ARCHIVE_FILTER_GZIP,
            Filter::Bzip2 => ARCHIVE_FILTER_BZIP2,
            Filter::Compress => ARCHIVE_FILTER_COMPRESS,
            Filter::Program => ARCHIVE_FILTER_PROGRAM,
            Filter::Lzma => ARCHIVE_FILTER_LZMA,
            Filter::Xz => ARCHIVE_FILTER_XZ,
            Filter::Uu => ARCHIVE_FILTER_UU,
            Filter::Rpm => ARCHIVE_FILTER_RPM,
            Filter::Lzip => ARCHIVE_FILTER_LZIP,
            Filter::Lrzip => ARCHIVE_FILTER_LRZIP,
            Filter::Lzop => ARCHIVE_FILTER_LZOP,
            Filter::Grzip => ARCHIVE_FILTER_GRZIP,
            Filter::Lz4 => ARCHIVE_FILTER_LZ4,
            Filter::Zstd => ARCHIVE_FILTER_ZSTD,
        }
    }

    /// The filter that an integer of the engine stands for. An integer
    /// that stands for none is refused with `UnknownFilter`.
    pub fn from_code(code: c_int) -> (r: Result<Filter, Error>)
        ensures
            match r {
                Ok(filter) => filter.raw() == code,
                Err(e) => e == Error::UnknownFilter && forall|f: Filter| f.raw() != code,
            },
    {
        match code {
            ARCHIVE_FILTER_NONE => Ok(Filter::NoFilter),
            ARCHIVE_FILTER_GZIP => Ok(Filter::Gzip),
            ARCHIVE_FILTER_BZIP2 => Ok(Filter::Bzip2),
            ARCHIVE_FILTER_COMPRESS => Ok(Filter::Compress),
            ARCHIVE_FILTER_PROGRAM => Ok(Filter::Program),
            ARCHIVE_FILTER_LZMA => Ok(Filter::Lzma),
            ARCHIVE_FILTER_XZ => Ok(Filter::Xz),
            ARCHIVE_FILTER_UU => Ok(Filter::Uu),
            ARCHIVE_FILTER_RPM => Ok(Filter::Rpm),
            ARCHIVE_FILTER_LZIP => Ok(Filter::Lzip),
            ARCHIVE_FILTER_LRZIP => Ok(Filter::Lrzip),
            ARCHIVE_FILTER_LZOP => Ok(Filter::Lzop),
            ARCHIVE_FILTER_GRZIP => Ok(Filter::Grzip),
            ARCHIVE_FILTER_LZ4 => Ok(Filter::Lz4),
            ARCHIVE_FILTER_ZSTD => Ok(Filter::Zstd),
            _ => Err(Error::UnknownFilter),
        }
    }

    /// The highest compression level of this filter, where it has levels.
    pub fn top_level(self) -> (top: Option<u32>)
        ensures
            top == self.top(),
    {
        match self {
            Filter::Zstd => Some(22),
            Filter::Bzip2
            | Filter::Gzip
            | Filter::Lrzip
            | Filter::Xz
            | Filter::Lz4
            | Filter::Lzip
            | Filter::Lzma
            | Filter::Lzop => Some(9),
            _ => None,
        }
    }
}

impl Format {
    /// The engine's integer for this format.
    pub open spec fn raw(self) -> c_int {
        match self {
            Format::Cpio => ARCHIVE_FORMAT_CPIO,
            Format::CpioPosix => ARCHIVE_FORMAT_CPIO_POSIX,
            Format::CpioBinLe => ARCHIVE_FORMAT_CPIO_BIN_LE,
            Format::CpioSvr4Nocrc => ARCHIVE_FORMAT_CPIO_SVR4_NOCRC,
            Format::CpioPwb => ARCHIVE_FORMAT_CPIO_PWB,
            Format::Shar => ARCHIVE_FORMAT_SHAR,
            Format::SharDump => ARCHIVE_FORMAT_SHAR_DUMP,
            Format::Tar => ARCHIVE_FORMAT_TAR,
            Format::TarUstar => ARCHIVE_FORMAT_TAR_USTAR,
            Format::TarPaxInterchange => ARCHIVE_FORMAT_TAR_PAX_INTERCHANGE,
            Format::TarPaxRestricted => ARCHIVE_FORMAT_TAR_PAX_RESTRICTED,
            Format::TarGnutar => ARCHIVE_FORMAT_TAR_GNUTAR,
            Format::Iso9660 => ARCHIVE_FORMAT_ISO9660,
            Format::Zip => ARCHIVE_FORMAT_ZIP,
            Format::Empty => ARCHIVE_FORMAT_EMPTY,
            Format::Mtree => ARCHIVE_FORMAT_MTREE,
            Format::Raw => ARCHIVE_FORMAT_RAW,
            Format::Xar => ARCHIVE_FORMAT_XAR,
            Format::Cab => ARCHIVE_FORMAT_CAB,
            Format::Rar => ARCHIVE_FORMAT_RAR,
            Format::SevenZip => ARCHIVE_FORMAT_7ZIP,
            Format::Warc => ARCHIVE_FORMAT_WARC,
        }
    }

    /// The highest compression level of this format, where it has levels.
    pub open spec fn top(self) -> Option<u32> {
        match self {
            Format::SevenZip | Format::Xar | Format::Zip => Some(9),
            _ => None,
        }
    }

    /// The engine's integer for this format.
    pub fn code(self) -> (code: c_int)
        ensures
            code == self.raw(),
    {
        match self {
            Format::Cpio => ARCHIVE_FORMAT_CPIO,
            Format::CpioPosix => ARCHIVE_FORMAT_CPIO_POSIX,
            Format::CpioBinLe => ARCHIVE_FORMAT_CPIO_BIN_LE,
            Format::CpioSvr4Nocrc => ARCHIVE_FORMAT_CPIO_SVR4_NOCRC,
            Format::CpioPwb => ARCHIVE_FORMAT_CPIO_PWB,
            Format::Shar => ARCHIVE_FORMAT_SHAR,
            Format::SharDump => ARCHIVE_FORMAT_SHAR_DUMP,
            Format::Tar => ARCHIVE_FORMAT_TAR,
            Format::TarUstar => ARCHIVE_FORMAT_TAR_USTAR,
            Format::TarPaxInterchange => ARCHIVE_FORMAT_TAR_PAX_INTERCHANGE,
            Format::TarPaxRestricted => ARCHIVE_FORMAT_TAR_PAX_RESTRICTED,
            Format::TarGnutar => ARCHIVE_FORMAT_TAR_GNUTAR,
            Format::Iso9660 => ARCHIVE_FORMAT_ISO9660,
            Format::Zip => ARCHIVE_FORMAT_ZIP,
            Format::Empty => ARCHIVE_FORMAT_EMPTY,
            Format::Mtree => ARCHIVE_FORMAT_MTREE,
            Format::Raw => ARCHIVE_FORMAT_RAW,
            Format::Xar => ARCHIVE_FORMAT_XAR,
            Format::Cab => ARCHIVE_FORMAT_CAB,
            Format::Rar => ARCHIVE_FORMAT_RAR,
            Format::SevenZip => ARCHIVE_FORMAT_7ZIP,
            Format::Warc => ARCHIVE_FORMAT_WARC,
        }
    }

    /// The format that an integer of the engine stands for. An integer
    /// that stands for none is refused with `UnknownFormat`.
    pub fn from_code(code: c_int) -> (r: Result<Format, Error>)
        ensures
            match r {
                Ok(format) => format.raw() == code,
                Err(e) => e == Error::UnknownFormat && forall|f: Format| f.raw() != code,
            },
    {
        match code {
            ARCHIVE_FORMAT_CPIO => Ok(Format::Cpio),
            ARCHIVE_FORMAT_CPIO_POSIX => Ok(Format::CpioPosix),
            ARCHIVE_FORMAT_CPIO_BIN_LE => Ok(Format::CpioBinLe),
            ARCHIVE_FORMAT_CPIO_SVR4_NOCRC => Ok(Format::CpioSvr4Nocrc),
            ARCHIVE_FORMAT_CPIO_PWB => Ok(Format::CpioPwb),
            ARCHIVE_FORMAT_SHAR => Ok(Format::Shar),
            ARCHIVE_FORMAT_SHAR_DUMP => Ok(Format::SharDump),
            ARCHIVE_FORMAT_TAR => Ok(Format::Tar),
            ARCHIVE_FORMAT_TAR_USTAR => Ok(Format::TarUstar),
            ARCHIVE_FORMAT_TAR_PAX_INTERCHANGE => Ok(Format::TarPaxInterchange),
            ARCHIVE_FORMAT_TAR_PAX_RESTRICTED => Ok(Format::TarPaxRestricted),
            ARCHIVE_FORMAT_TAR_GNUTAR => Ok(Format::TarGnutar),
            ARCHIVE_FORMAT_ISO9660 => Ok(Format::Iso9660),
            ARCHIVE_FORMAT_ZIP => Ok(Format::Zip),
            ARCHIVE_FORMAT_EMPTY => Ok(Format::Empty),
            ARCHIVE_FORMAT_MTREE => Ok(Format::Mtree),
            ARCHIVE_FORMAT_RAW => Ok(Format::Raw),
            ARCHIVE_FORMAT_XAR => Ok(Format::Xar),
            ARCHIVE_FORMAT_CAB => Ok(Format::Cab),
            ARCHIVE_FORMAT_RAR => Ok(Format::Rar),
            ARCHIVE_FORMAT_7ZIP => Ok(Format::SevenZip),
            ARCHIVE_FORMAT_WARC => Ok(Format::Warc),
            _ => Err(Error::UnknownFormat),
        }
    }

    /// The highest compression level of this format, where it has levels.
    pub fn top_level(self) -> (top: Option<u32>)
        ensures
            top == self.top(),
    {
        match self {
            Format::SevenZip | Format::Xar | Format::Zip => Some(9),
            _ => None,
        }
    }
}

/// The integers of the engine name its filters and formats one to one: no
/// two filters share an integer, nor do two formats; none is negative, so
/// that none is mistaken for the mark of a format or filter that was never
/// set.
pub proof fn lemma_codes_name_one_kind_each(a: Filter, b: Filter, c: Format, d: Format)
    ensures
        a.raw() == b.raw() ==> a == b,
        c.raw() == d.raw() ==> c == d,
        a.raw() >= 0,
        c.raw() >= 0,
{
}

} // verus!
