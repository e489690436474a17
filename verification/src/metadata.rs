//! The format-agnostic record of a file's attributes, and how it is made
//! from filesystem attributes and from an engine entry.

use crate::carchive::{
    decode_lossy, lossy_text, EntryRecord, FileAttributes, AE_IFDIR, AE_IFLNK, AE_IFREG,
};
use libc::{gid_t, mode_t, uid_t};
use vstd::prelude::*;
use vstd::utf8::{encode_utf8, valid_utf8};

verus! {

/// The attributes of one file. A value, immutable once made.
#[derive(Debug, PartialEq, Eq)]
pub struct Metadata {
    filepath: String,
    size: i64,
    nodetype: mode_t,
    perm: mode_t,
    ctime: i64,
    ctime_nano: i64,
    atime: i64,
    atime_nano: i64,
    mtime: i64,
    mtime_nano: i64,
    owner: uid_t,
    group: gid_t,
}

pub ghost struct MetadataView {
    pub filepath: Seq<char>,
    pub size: i64,
    pub nodetype: mode_t,
    pub perm: mode_t,
    pub ctime: i64,
    pub ctime_nano: i64,
    pub atime: i64,
    pub atime_nano: i64,
    pub mtime: i64,
    pub mtime_nano: i64,
    pub owner: uid_t,
    pub group: gid_t,
}

impl View for Metadata {
    type V = MetadataView;

    closed spec fn view(&self) -> MetadataView {
        MetadataView {
            filepath: self.filepath@,
            size: self.size,
            nodetype: self.nodetype,
            perm: self.perm,
            ctime: self.ctime,
            ctime_nano: self.ctime_nano,
            atime: self.atime,
            atime_nano: self.atime_nano,
            mtime: self.mtime,
            mtime_nano: self.mtime_nano,
            owner: self.owner,
            group: self.group,
        }
    }
}

impl Clone for Metadata {
    fn clone(&self) -> (copy: Self)
        ensures
            copy@ == self@,
    {
        Metadata {
            filepath: self.filepath.clone(),
            size: self.size,
            nodetype: self.nodetype,
            perm: self.perm,
            ctime: self.ctime,
            ctime_nano: self.ctime_nano,
            atime: self.atime,
            atime_nano: self.atime_nano,
            mtime: self.mtime,
            mtime_nano: self.mtime_nano,
            owner: self.owner,
            group: self.group,
        }
    }
}

/// The node-type tag of a file: directory, regular file or symbolic link,
/// tested in that order, and 0 for anything else.
pub open spec fn nodetype_of(attrs: FileAttributes) -> mode_t {
    if attrs.is_dir {
        AE_IFDIR
    } else if attrs.is_file {
        AE_IFREG
    } else if attrs.is_symlink {
        AE_IFLNK
    } else {
        0
    }
}

/// The record of a file on disk. The path is blank: it is supplied apart.
/// A size above `i64::MAX` wraps.
pub open spec fn filesystem_metadata(attrs: FileAttributes) -> MetadataView {
    MetadataView {
        filepath: Seq::empty(),
        size: attrs.size as i64,
        nodetype: nodetype_of(attrs),
        perm: attrs.mode,
        ctime: attrs.ctime,
        ctime_nano: attrs.ctime_nsec,
        atime: attrs.atime,
        atime_nano: attrs.atime_nsec,
        mtime: attrs.mtime,
        mtime_nano: attrs.mtime_nsec,
        owner: attrs.uid,
        group: attrs.gid,
    }
}

/// The path of an entry: its path name decoded lossily, or the empty text
/// where the engine reports no path name.
pub open spec fn entry_path(entry: EntryRecord) -> Seq<char> {
    match entry.pathname {
        Some(bytes) => lossy_text(bytes@),
        None => Seq::empty(),
    }
}

/// The record of an archive entry.
pub open spec fn entry_metadata(entry: EntryRecord) -> MetadataView {
    MetadataView {
        filepath: entry_path(entry),
        size: entry.size,
        nodetype: entry.filetype,
        perm: entry.perm,
        ctime: entry.ctime,
        ctime_nano: entry.ctime_nsec,
        atime: entry.atime,
        atime_nano: entry.atime_nsec,
        mtime: entry.mtime,
        mtime_nano: entry.mtime_nsec,
        owner: entry.uid,
        group: entry.gid,
    }
}

/// The node-type tag for what the filesystem says a file is.
pub fn into_nodetype(source: &FileAttributes) -> (tag: mode_t)
    ensures
        tag == nodetype_of(*source),
{
    if source.is_dir {
        AE_IFDIR
    } else if source.is_file {
        AE_IFREG
    } else if source.is_symlink {
        AE_IFLNK
    } else {
        0
    }
}

impl Metadata {
    /// The record of a file on disk, from the attributes that the
    /// filesystem reports. The path is left blank.
    pub fn from_filesystem_metadata(meta: FileAttributes) -> (m: Metadata)
        ensures
            m@ == filesystem_metadata(meta),
    {
        Metadata {
            filepath: String::new(),
            size: #[verifier::truncate] (meta.size as i64),
            nodetype: into_nodetype(&meta),
            perm: meta.mode,
            ctime: meta.ctime,
            ctime_nano: meta.ctime_nsec,
            atime: meta.atime,
            atime_nano: meta.atime_nsec,
            mtime: meta.mtime,
            mtime_nano: meta.mtime_nsec,
            owner: meta.uid,
            group: meta.gid,
        }
    }

    /// The record of an archive entry, from what its accessors report. A
    /// missing path name gives the empty path; a path name that is not
    /// UTF-8 is decoded lossily.
    pub fn from_entry_handle(entry: EntryRecord) -> (m: Metadata)
        ensures
            m@ == entry_metadata(entry),
    {
        let filepath = match &entry.pathname {
            Some(bytes) => decode_lossy(bytes),
            None => String::new(),
        };
        Metadata {
            filepath,
            size: entry.size,
            nodetype: entry.filetype,
            perm: entry.perm,
            ctime: entry.ctime,
            ctime_nano: entry.ctime_nsec,
            atime: entry.atime,
            atime_nano: entry.atime_nsec,
            mtime: entry.mtime,
            mtime_nano: entry.mtime_nsec,
            owner: entry.uid,
            group: entry.gid,
        }
    }

    pub fn filepath(&self) -> (path: &str)
        ensures
            path@ == self@.filepath,
    {
        self.filepath.as_str()
    }

    pub fn size(&self) -> (size: i64)
        ensures
            size == self@.size,
    {
        self.size
    }

    pub fn nodetype(&self) -> (nodetype: mode_t)
        ensures
            nodetype == self@.nodetype,
    {
        self.nodetype
    }

    pub fn perm(&self) -> (perm: mode_t)
        ensures
            perm == self@.perm,
    {
        self.perm
    }

    pub fn ctime(&self) -> (seconds: i64)
        ensures
            seconds == self@.ctime,
    {
        self.ctime
    }

    pub fn ctime_nano(&self) -> (nanos: i64)
        ensures
            nanos == self@.ctime_nano,
    {
        self.ctime_nano
    }

    pub fn atime(&self) -> (seconds: i64)
        ensures
            seconds == self@.atime,
    {
        self.atime
    }

    pub fn atime_nano(&self) -> (nanos: i64)
        ensures
            nanos == self@.atime_nano,
    {
        self.atime_nano
    }

    pub fn mtime(&self) -> (seconds: i64)
        ensures
            seconds == self@.mtime,
    {
        self.mtime
    }

    pub fn mtime_nano(&self) -> (nanos: i64)
        ensures
            nanos == self@.mtime_nano,
    {
        self.mtime_nano
    }

    pub fn owner(&self) -> (owner: uid_t)
        ensures
            owner == self@.owner,
    {
        self.owner
    }

    pub fn group(&self) -> (group: gid_t)
        ensures
            group == self@.group,
    {
        self.group
    }
}

/// A record read off the filesystem is sound: its node type is one of the
/// three known tags or 0, and a size that fits a signed 64-bit integer is
/// kept as it is, so that it is not negative. A larger size wraps: it
/// keeps its 64 bits and reads as a negative number.
pub proof fn lemma_filesystem_record_is_sound(attrs: FileAttributes)
    ensures
        nodetype_of(attrs) == AE_IFDIR || nodetype_of(attrs) == AE_IFREG || nodetype_of(attrs)
            == AE_IFLNK || nodetype_of(attrs) == 0,
        filesystem_metadata(attrs).filepath.len() == 0,
        attrs.size <= i64::MAX ==> filesystem_metadata(attrs).size == attrs.size,
        attrs.size > i64::MAX ==> filesystem_metadata(attrs).size < 0,
        filesystem_metadata(attrs).size as u64 == attrs.size,
{
    let size = attrs.size;
    assert(size > 0x7fff_ffff_ffff_ffffu64 ==> (size as i64) < 0i64) by (bit_vector);
    assert((size as i64) as u64 == size) by (bit_vector);
}

/// A path name that is the UTF-8 encoding of a text is read back as that
/// text.
pub proof fn lemma_utf8_path_is_kept(entry: EntryRecord, name: Seq<char>)
    requires
        entry.pathname matches Some(bytes) && bytes@ == encode_utf8(name),
    ensures
        entry_path(entry) == name,
{
    broadcast use {
        vstd::utf8::encode_utf8_valid_utf8,
        vstd::utf8::encode_utf8_decode_utf8,
    };

}

/// The path of an entry is empty where the engine reports no path name, and
/// where the path name has no bytes; it is not empty where the path name is
/// valid UTF-8 of at least one byte.
pub proof fn lemma_path_is_empty_only_without_a_name(entry: EntryRecord)
    ensures
        entry.pathname is None ==> entry_path(entry).len() == 0,
        entry.pathname matches Some(bytes) && bytes@.len() == 0 ==> entry_path(entry).len() == 0,
        entry.pathname matches Some(bytes) && bytes@.len() > 0 && valid_utf8(bytes@)
            ==> entry_path(entry).len() > 0,
{
}

} // verus!
