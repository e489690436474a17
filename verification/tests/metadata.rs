use simple_archive::carchive::{EntryRecord, FileAttributes};
use simple_archive::metadata::into_nodetype;
use simple_archive::{Metadata, AE_IFDIR, AE_IFLNK, AE_IFREG};

fn attributes() -> FileAttributes {
    FileAttributes {
        is_dir: false,
        is_file: true,
        is_symlink: false,
        size: 1000,
        mode: 0o100644,
        ctime: 11,
        ctime_nsec: 12,
        atime: 21,
        atime_nsec: 22,
        mtime: 31,
        mtime_nsec: 32,
        uid: 1000,
        gid: 100,
    }
}

fn record(pathname: Option<Vec<u8>>) -> EntryRecord {
    EntryRecord {
        pathname,
        size: 1000,
        filetype: AE_IFREG,
        perm: 0o644,
        ctime: 1,
        ctime_nsec: 2,
        atime: 3,
        atime_nsec: 4,
        mtime: 5,
        mtime_nsec: 6,
        uid: 7,
        gid: 8,
    }
}

#[test]
fn filesystem_metadata_is_copied_verbatim() {
    let m = Metadata::from_filesystem_metadata(attributes());
    assert_eq!(m.filepath(), "");
    assert_eq!(m.size(), 1000);
    assert_eq!(m.nodetype(), AE_IFREG);
    assert_eq!(m.perm(), 0o100644);
    assert_eq!((m.ctime(), m.ctime_nano()), (11, 12));
    assert_eq!((m.atime(), m.atime_nano()), (21, 22));
    assert_eq!((m.mtime(), m.mtime_nano()), (31, 32));
    assert_eq!(m.owner(), 1000);
    assert_eq!(m.group(), 100);
}

#[test]
fn nodetype_of_a_directory() {
    let a = FileAttributes { is_dir: true, is_file: false, ..attributes() };
    assert_eq!(into_nodetype(&a), AE_IFDIR);
    assert_eq!(into_nodetype(&a), 0o040000);
}

#[test]
fn nodetype_of_a_regular_file() {
    assert_eq!(into_nodetype(&attributes()), AE_IFREG);
    assert_eq!(into_nodetype(&attributes()), 0o100000);
}

#[test]
fn nodetype_of_a_symlink() {
    let a = FileAttributes { is_file: false, is_symlink: true, ..attributes() };
    assert_eq!(into_nodetype(&a), AE_IFLNK);
    assert_eq!(into_nodetype(&a), 0o120000);
}

#[test]
fn nodetype_of_anything_else_is_zero() {
    let a = FileAttributes { is_file: false, ..attributes() };
    assert_eq!(into_nodetype(&a), 0);
    assert_eq!(Metadata::from_filesystem_metadata(a).nodetype(), 0);
}

#[test]
fn nodetype_tests_directory_first() {
    let a = FileAttributes { is_dir: true, is_file: true, is_symlink: true, ..attributes() };
    assert_eq!(into_nodetype(&a), AE_IFDIR);
    let b = FileAttributes { is_dir: false, is_file: true, is_symlink: true, ..attributes() };
    assert_eq!(into_nodetype(&b), AE_IFREG);
}

#[test]
fn size_above_the_signed_range_wraps() {
    let a = FileAttributes { size: u64::MAX, ..attributes() };
    assert_eq!(Metadata::from_filesystem_metadata(a).size(), -1);
    let b = FileAttributes { size: 1 << 63, ..attributes() };
    assert_eq!(Metadata::from_filesystem_metadata(b).size(), i64::MIN);
    let c = FileAttributes { size: i64::MAX as u64, ..attributes() };
    assert_eq!(Metadata::from_filesystem_metadata(c).size(), i64::MAX);
}

#[test]
fn entry_metadata_is_read_off_the_entry() {
    let m = Metadata::from_entry_handle(record(Some(b"random.txt".to_vec())));
    assert_eq!(m.filepath(), "random.txt");
    assert_eq!(m.size(), 1000);
    assert_eq!(m.nodetype(), AE_IFREG);
    assert_eq!(m.perm(), 0o644);
    assert_eq!((m.ctime(), m.ctime_nano()), (1, 2));
    assert_eq!((m.atime(), m.atime_nano()), (3, 4));
    assert_eq!((m.mtime(), m.mtime_nano()), (5, 6));
    assert_eq!(m.owner(), 7);
    assert_eq!(m.group(), 8);
}

#[test]
fn entry_without_pathname_has_the_empty_path() {
    let m = Metadata::from_entry_handle(record(None));
    assert_eq!(m.filepath(), "");
}

#[test]
fn entry_path_is_decoded_lossily() {
    let m = Metadata::from_entry_handle(record(Some(vec![b'a', 0xff, b'b'])));
    assert_eq!(m.filepath(), "a\u{fffd}b");
    let n = Metadata::from_entry_handle(record(Some("d\u{e9}j\u{e0}.txt".as_bytes().to_vec())));
    assert_eq!(n.filepath(), "d\u{e9}j\u{e0}.txt");
}

#[test]
fn records_compare_by_their_fields() {
    let a = Metadata::from_entry_handle(record(Some(b"x".to_vec())));
    let b = Metadata::from_entry_handle(record(Some(b"x".to_vec())));
    let c = Metadata::from_entry_handle(record(Some(b"y".to_vec())));
    assert_eq!(a, b);
    assert_ne!(a, c);
    assert_eq!(a.clone(), a);
}
