use simple_archive::carchive::{Diagnostic, FileAttributes, StreamFailure};
use simple_archive::writer::{ArchiveWriter, EntryHeader, Setting, WriteReply, WriteRequest};
use simple_archive::{
    Error, ARCHIVE_FILTER_GZIP, ARCHIVE_FILTER_NONE, ARCHIVE_FILTER_XZ, ARCHIVE_FILTER_ZSTD,
    ARCHIVE_FORMAT_7ZIP, ARCHIVE_FORMAT_TAR, ARCHIVE_FORMAT_ZIP, ARCHIVE_OK,
};

/// Stands in for the engine and the filesystem: it records what is asked.
struct Recorder {
    live: Option<usize>,
    allocated: usize,
    freed: usize,
    opened: bool,
    settings: Vec<Setting>,
    entries: Vec<(EntryHeader, Vec<u8>)>,
    entries_released: usize,
    source: Vec<u8>,
    position: usize,
    chunk: Vec<u8>,
}

fn recorder() -> Recorder {
    Recorder {
        live: None,
        allocated: 0,
        freed: 0,
        opened: false,
        settings: Vec::new(),
        entries: Vec::new(),
        entries_released: 0,
        source: Vec::new(),
        position: 0,
        chunk: Vec::new(),
    }
}

fn random_txt() -> Vec<u8> {
    (0..1000u32).map(|i| b'a' + ((i * 7 + i / 13) % 26) as u8).collect()
}

fn done() -> WriteReply {
    WriteReply::Status(ARCHIVE_OK, Diagnostic { message: None, errno: 0 })
}

fn perform(r: &mut Recorder, request: WriteRequest) -> WriteReply {
    match request {
        WriteRequest::NewSession => {
            assert_eq!(r.live, None);
            r.allocated += 1;
            r.live = Some(0x7000 + r.allocated);
            WriteReply::Session(0x7000 + r.allocated)
        }
        WriteRequest::SetBytesInLastBlock(h, n) => {
            assert_eq!((r.live, n), (Some(h), 1));
            done()
        }
        WriteRequest::Apply(h, setting) => {
            assert_eq!(r.live, Some(h));
            assert!(!r.opened);
            r.settings.push(setting);
            done()
        }
        WriteRequest::Open(h) => {
            assert_eq!(r.live, Some(h));
            r.opened = true;
            done()
        }
        WriteRequest::OpenFile(path) => {
            if path == "tests/fixtures/random.txt" {
                r.source = random_txt();
                r.position = 0;
                WriteReply::File(Ok(FileAttributes {
                    is_dir: false,
                    is_file: true,
                    is_symlink: false,
                    size: 1000,
                    mode: 0o100644,
                    ctime: 1700000000,
                    ctime_nsec: 1,
                    atime: 1700000001,
                    atime_nsec: 2,
                    mtime: 1700000002,
                    mtime_nsec: 3,
                    uid: 1000,
                    gid: 1000,
                }))
            } else {
                WriteReply::File(Err(StreamFailure {
                    description: "No such file or directory (os error 2)".to_string(),
                    os_code: Some(2),
                }))
            }
        }
        WriteRequest::WriteHeader(h, header) => {
            assert_eq!(r.live, Some(h));
            assert!(r.opened);
            r.entries.push((header, Vec::new()));
            done()
        }
        WriteRequest::ReadChunk(room) => {
            let n = room.min(r.source.len() - r.position);
            r.chunk = r.source[r.position..r.position + n].to_vec();
            r.position += n;
            WriteReply::Chunk(Ok(n))
        }
        WriteRequest::WriteData(h, n) => {
            assert_eq!(r.live, Some(h));
            let chunk = r.chunk[..n].to_vec();
            r.entries.last_mut().unwrap().1.extend_from_slice(&chunk);
            WriteReply::Written(n as isize, Diagnostic { message: None, errno: 0 })
        }
        WriteRequest::FreeEntry => {
            r.entries_released += 1;
            WriteReply::EntryFreed
        }
        WriteRequest::Free(h) => {
            assert_eq!(r.live, Some(h));
            r.live = None;
            r.freed += 1;
            done()
        }
    }
}

fn drive(a: &mut ArchiveWriter, r: &mut Recorder) -> Result<(), Error> {
    while let Some(request) = a.pending() {
        let reply = perform(r, request);
        a.advance(reply);
    }
    a.take_outcome().unwrap()
}

fn option(on_filter: bool, name: &str, value: &str) -> Setting {
    if on_filter {
        Setting::FilterOption(name.to_string(), value.to_string())
    } else {
        Setting::FormatOption(name.to_string(), value.to_string())
    }
}

fn check_archive(mut a: ArchiveWriter, mut r: Recorder, settings: Vec<Setting>) {
    assert_eq!(r.settings, settings);
    assert!(r.opened);
    assert_eq!(r.entries.len(), 1);
    assert_eq!(r.entries_released, 1);
    let (header, payload) = &r.entries[0];
    assert_eq!(header.pathname, "E/output.xz");
    assert_eq!(header.size, 1000);
    assert_eq!(header.mode, 0o100644);
    assert_eq!(header.perm, 0o100644);
    assert_eq!((header.mtime, header.mtime_nsec), (1700000002, 3));
    assert_eq!((header.uid, header.gid), (1000, 1000));
    assert_eq!(payload, &random_txt());
    a.free();
    let _ = drive(&mut a, &mut r);
    assert_eq!((r.allocated, r.freed, r.live), (1, 1, None));
}

#[test]
fn compress_archive_7z() {
    let mut r = recorder();
    let mut a = ArchiveWriter::new();
    drive(&mut a, &mut r).unwrap();
    a.set_output_7zlzma2();
    drive(&mut a, &mut r).unwrap();
    a.set_compression_high();
    drive(&mut a, &mut r).unwrap();
    a.open();
    drive(&mut a, &mut r).unwrap();
    a.add_file("tests/fixtures/random.txt", "E/output.xz");
    drive(&mut a, &mut r).unwrap();
    check_archive(
        a,
        r,
        vec![
            Setting::Format(ARCHIVE_FORMAT_7ZIP),
            Setting::Filter(ARCHIVE_FILTER_NONE),
            option(false, "compression", "lzma2"),
            option(false, "compression-level", "9"),
        ],
    );
}

#[test]
fn compress_archive_zip() {
    let mut r = recorder();
    let mut a = ArchiveWriter::new();
    drive(&mut a, &mut r).unwrap();
    a.set_output_zip();
    drive(&mut a, &mut r).unwrap();
    a.set_compression_high();
    drive(&mut a, &mut r).unwrap();
    a.open();
    drive(&mut a, &mut r).unwrap();
    a.add_file("tests/fixtures/random.txt", "E/output.xz");
    drive(&mut a, &mut r).unwrap();
    check_archive(
        a,
        r,
        vec![
            Setting::Format(ARCHIVE_FORMAT_ZIP),
            Setting::Filter(ARCHIVE_FILTER_NONE),
            option(false, "compression", "deflate"),
            option(false, "compression-level", "9"),
        ],
    );
}

#[test]
fn compress_archive_targz() {
    let mut r = recorder();
    let mut a = ArchiveWriter::new();
    drive(&mut a, &mut r).unwrap();
    a.set_output_targz();
    drive(&mut a, &mut r).unwrap();
    a.set_compression_high();
    drive(&mut a, &mut r).unwrap();
    a.open();
    drive(&mut a, &mut r).unwrap();
    a.add_file("tests/fixtures/random.txt", "E/output.xz");
    drive(&mut a, &mut r).unwrap();
    check_archive(
        a,
        r,
        vec![
            Setting::Format(ARCHIVE_FORMAT_TAR),
            Setting::Filter(ARCHIVE_FILTER_GZIP),
            option(true, "compression-level", "9"),
        ],
    );
}

#[test]
fn compress_archive_tarxz() {
    let mut r = recorder();
    let mut a = ArchiveWriter::new();
    drive(&mut a, &mut r).unwrap();
    a.set_output_tarxz();
    drive(&mut a, &mut r).unwrap();
    a.set_compression_high();
    drive(&mut a, &mut r).unwrap();
    a.open();
    drive(&mut a, &mut r).unwrap();
    a.add_file("tests/fixtures/random.txt", "E/output.xz");
    drive(&mut a, &mut r).unwrap();
    check_archive(
        a,
        r,
        vec![
            Setting::Format(ARCHIVE_FORMAT_TAR),
            Setting::Filter(ARCHIVE_FILTER_XZ),
            option(true, "compression-level", "9"),
        ],
    );
}

#[test]
fn compress_archive_tarzst() {
    let mut r = recorder();
    let mut a = ArchiveWriter::new();
    drive(&mut a, &mut r).unwrap();
    a.set_output_tarzst();
    drive(&mut a, &mut r).unwrap();
    a.set_compression_high();
    drive(&mut a, &mut r).unwrap();
    a.open();
    drive(&mut a, &mut r).unwrap();
    a.add_file("tests/fixtures/random.txt", "E/output.xz");
    drive(&mut a, &mut r).unwrap();
    check_archive(
        a,
        r,
        vec![
            Setting::Format(ARCHIVE_FORMAT_TAR),
            Setting::Filter(ARCHIVE_FILTER_ZSTD),
            option(true, "compression-level", "22"),
        ],
    );
}

#[test]
fn compress_missing_file_fails_and_writes_nothing() {
    let mut r = recorder();
    let mut a = ArchiveWriter::new();
    drive(&mut a, &mut r).unwrap();
    a.set_output_targz();
    drive(&mut a, &mut r).unwrap();
    a.open();
    drive(&mut a, &mut r).unwrap();
    a.add_file("tests/fixtures/absent.txt", "E/output.xz");
    assert!(matches!(drive(&mut a, &mut r), Err(Error::IO(_))));
    assert!(r.entries.is_empty());
    assert_eq!(r.entries_released, 0);
}

#[test]
fn compress_before_configuring_asks_nothing_of_the_engine() {
    let mut r = recorder();
    let mut a = ArchiveWriter::new();
    drive(&mut a, &mut r).unwrap();
    a.open();
    assert_eq!(drive(&mut a, &mut r), Err(Error::IncompleteInitialization));
    assert!(!r.opened);
    assert!(r.settings.is_empty());
}
