use simple_archive::carchive::{Diagnostic, EntryRecord, StreamFailure};
use simple_archive::error::IoError;
use simple_archive::reader::{ArchiveReader, ReadOutput, ReadReply, ReadRequest};
use simple_archive::{
    Error, Metadata, AE_IFREG, ARCHIVE_EOF, ARCHIVE_FAILED, ARCHIVE_FATAL, ARCHIVE_OK,
    ARCHIVE_RETRY, ARCHIVE_WARN,
};

fn quiet() -> Diagnostic {
    Diagnostic { message: None, errno: 0 }
}

fn said(message: &str) -> Diagnostic {
    Diagnostic { message: Some(message.as_bytes().to_vec()), errno: 0 }
}

fn status(code: i32) -> ReadReply {
    ReadReply::Status(code, quiet())
}

fn entry(name: &str, size: i64) -> EntryRecord {
    EntryRecord {
        pathname: Some(name.as_bytes().to_vec()),
        size,
        filetype: AE_IFREG,
        perm: 0o644,
        ctime: 0,
        ctime_nsec: 0,
        atime: 0,
        atime_nsec: 0,
        mtime: 0,
        mtime_nsec: 0,
        uid: 0,
        gid: 0,
    }
}

fn ready(handle: usize) -> ArchiveReader {
    let mut r = ArchiveReader::new();
    r.advance(ReadReply::Session(handle));
    for _ in 0..4 {
        r.advance(status(ARCHIVE_OK));
    }
    assert_eq!(r.take_outcome(), Some(Ok(ReadOutput::Done)));
    r
}

fn scanning(handle: usize, fresh: usize, name: &str) -> ArchiveReader {
    let mut r = ready(handle);
    r.reader_seek_obj(name);
    r.advance(ReadReply::Rewound(Ok(0)));
    r.advance(status(ARCHIVE_OK));
    r.advance(ReadReply::Session(fresh));
    for _ in 0..4 {
        r.advance(status(ARCHIVE_OK));
    }
    assert_eq!(r.pending(), Some(ReadRequest::NextHeader(fresh)));
    r
}

#[test]
fn construction_makes_the_setup_calls_in_order() {
    let mut r = ArchiveReader::new();
    assert_eq!(r.pending(), Some(ReadRequest::NewSession));
    assert_eq!(r.get_archive(), Err(Error::NullArchive));
    r.advance(ReadReply::Session(0x1000));
    assert_eq!(r.pending(), Some(ReadRequest::SupportFilterAll(0x1000)));
    r.advance(status(ARCHIVE_OK));
    assert_eq!(r.pending(), Some(ReadRequest::SupportFormatAll(0x1000)));
    r.advance(status(ARCHIVE_WARN));
    assert_eq!(r.pending(), Some(ReadRequest::SetSeekCallback(0x1000)));
    r.advance(status(ARCHIVE_OK));
    assert_eq!(r.pending(), Some(ReadRequest::Open(0x1000)));
    assert_eq!(r.take_outcome(), None);
    r.advance(status(ARCHIVE_OK));
    assert_eq!(r.pending(), None);
    assert_eq!(r.get_archive(), Ok(0x1000));
    assert_eq!(r.take_outcome(), Some(Ok(ReadOutput::Done)));
    assert_eq!(r.take_outcome(), None);
    assert_eq!(r.current_entry(), None);
}

#[test]
fn null_session_is_fatal() {
    let mut r = ArchiveReader::new();
    r.advance(ReadReply::Session(0));
    assert_eq!(r.pending(), None);
    assert_eq!(r.take_outcome(), Some(Err(Error::NullArchive)));
    assert_eq!(r.get_archive(), Err(Error::NullArchive));
}

#[test]
fn failed_setup_frees_the_session_at_every_stage() {
    for stage in 0..4 {
        let mut r = ArchiveReader::new();
        r.advance(ReadReply::Session(77));
        for _ in 0..stage {
            r.advance(status(ARCHIVE_OK));
        }
        r.advance(ReadReply::Status(ARCHIVE_FATAL, said("no such filter")));
        assert_eq!(r.pending(), Some(ReadRequest::Free(77)));
        assert_eq!(r.take_outcome(), None);
        r.advance(status(ARCHIVE_FAILED));
        assert_eq!(r.pending(), None);
        assert_eq!(r.get_archive(), Err(Error::NullArchive));
        assert_eq!(
            r.take_outcome(),
            Some(Err(Error::Extraction("no such filter".to_string())))
        );
    }
}

#[test]
fn retry_and_eof_fail_a_setup_call() {
    for code in [ARCHIVE_RETRY, ARCHIVE_EOF, ARCHIVE_FAILED] {
        let mut r = ArchiveReader::new();
        r.advance(ReadReply::Session(5));
        r.advance(ReadReply::Status(code, Diagnostic { message: None, errno: 12 }));
        assert_eq!(r.pending(), Some(ReadRequest::Free(5)));
        r.advance(status(ARCHIVE_OK));
        assert_eq!(r.take_outcome(), Some(Err(Error::IO(IoError::Os(12)))));
    }
}

#[test]
fn whole_archive_needs_no_preparation() {
    assert_eq!(ready(1).reader_whole_archive(), Ok(()));
    assert_eq!(ArchiveReader::new().reader_whole_archive(), Ok(()));
}

#[test]
fn listing_returns_every_entry_in_header_order() {
    let names = ["b.txt", "a.txt", "dir/c.bin"];
    let mut r = ready(9);
    r.list_files();
    for (i, name) in names.iter().enumerate() {
        assert_eq!(r.pending(), Some(ReadRequest::NextHeader(9)));
        r.advance(status(if i == 1 { ARCHIVE_WARN } else { ARCHIVE_OK }));
        assert_eq!(r.pending(), Some(ReadRequest::ReadEntry(9)));
        r.advance(ReadReply::Entry(entry(name, 10 * i as i64)));
    }
    assert_eq!(r.pending(), Some(ReadRequest::NextHeader(9)));
    r.advance(status(ARCHIVE_EOF));
    assert_eq!(r.pending(), Some(ReadRequest::Free(9)));
    assert_eq!(r.take_outcome(), None);
    r.advance(status(ARCHIVE_OK));
    assert_eq!(r.pending(), None);
    let files = match r.take_outcome() {
        Some(Ok(ReadOutput::Files(files))) => files,
        other => panic!("no list: {:?}", other),
    };
    assert_eq!(files.len(), 3);
    for (i, name) in names.iter().enumerate() {
        assert_eq!(files[i].filepath(), *name);
        assert!(!files[i].filepath().is_empty());
        assert_eq!(files[i].size(), 10 * i as i64);
        assert_eq!(files[i], Metadata::from_entry_handle(entry(name, 10 * i as i64)));
    }
    assert_eq!(r.get_archive(), Err(Error::NullArchive));
}

#[test]
fn listing_an_empty_archive_returns_no_entries() {
    let mut r = ready(9);
    r.list_files();
    r.advance(status(ARCHIVE_EOF));
    r.advance(status(ARCHIVE_OK));
    assert_eq!(r.take_outcome(), Some(Ok(ReadOutput::Files(vec![]))));
}

#[test]
fn listing_discards_partial_results_on_failure() {
    let mut r = ready(9);
    r.list_files();
    r.advance(status(ARCHIVE_OK));
    r.advance(ReadReply::Entry(entry("a", 1)));
    r.advance(ReadReply::Status(ARCHIVE_FATAL, said("Damaged tar archive")));
    assert_eq!(r.pending(), Some(ReadRequest::Free(9)));
    r.advance(status(ARCHIVE_OK));
    assert_eq!(
        r.take_outcome(),
        Some(Err(Error::Extraction("Damaged tar archive".to_string())))
    );
    assert_eq!(r.get_archive(), Err(Error::NullArchive));
}

#[test]
fn listing_swallows_a_failed_free() {
    let mut r = ready(9);
    r.list_files();
    r.advance(status(ARCHIVE_EOF));
    r.advance(ReadReply::Status(ARCHIVE_FATAL, said("close failed")));
    assert_eq!(r.take_outcome(), Some(Ok(ReadOutput::Files(vec![]))));
}

#[test]
fn seek_rewinds_frees_and_rebuilds_the_session() {
    let mut r = ready(0xa);
    r.reader_seek_obj("random.txt");
    assert_eq!(r.pending(), Some(ReadRequest::Rewind));
    r.advance(ReadReply::Rewound(Ok(0)));
    assert_eq!(r.pending(), Some(ReadRequest::Free(0xa)));
    r.advance(status(ARCHIVE_OK));
    assert_eq!(r.pending(), Some(ReadRequest::NewSession));
    assert_eq!(r.get_archive(), Err(Error::NullArchive));
    r.advance(ReadReply::Session(0xb));
    assert_eq!(r.pending(), Some(ReadRequest::SupportFilterAll(0xb)));
    r.advance(status(ARCHIVE_OK));
    assert_eq!(r.pending(), Some(ReadRequest::SupportFormatAll(0xb)));
    r.advance(status(ARCHIVE_OK));
    assert_eq!(r.pending(), Some(ReadRequest::SetSeekCallback(0xb)));
    r.advance(status(ARCHIVE_OK));
    assert_eq!(r.pending(), Some(ReadRequest::Open(0xb)));
    r.advance(status(ARCHIVE_OK));
    assert_eq!(r.pending(), Some(ReadRequest::NextHeader(0xb)));
    assert_eq!(r.take_outcome(), None);
}

#[test]
fn seek_stops_at_the_named_entry() {
    let mut r = scanning(1, 2, "random.txt");
    r.advance(status(ARCHIVE_OK));
    assert_eq!(r.pending(), Some(ReadRequest::ReadEntry(2)));
    r.advance(ReadReply::Entry(entry("test2.txt", 5)));
    assert_eq!(r.pending(), Some(ReadRequest::NextHeader(2)));
    assert_eq!(r.current_entry(), None);
    r.advance(status(ARCHIVE_WARN));
    r.advance(ReadReply::Entry(entry("random.txt", 1000)));
    assert_eq!(r.pending(), None);
    assert_eq!(r.take_outcome(), Some(Ok(ReadOutput::Done)));
    assert_eq!(r.current_entry(), Some(&Metadata::from_entry_handle(entry("random.txt", 1000))));
    assert_eq!(r.get_archive(), Ok(2));
}

#[test]
fn seek_compares_the_whole_path() {
    let mut r = scanning(1, 2, "a/b");
    for other in ["a", "a/b/c", "b", "A/B", ""] {
        r.advance(status(ARCHIVE_OK));
        r.advance(ReadReply::Entry(entry(other, 1)));
        assert_eq!(r.pending(), Some(ReadRequest::NextHeader(2)));
    }
    r.advance(status(ARCHIVE_OK));
    r.advance(ReadReply::Entry(entry("a/b", 1)));
    assert_eq!(r.take_outcome(), Some(Ok(ReadOutput::Done)));
}

#[test]
fn seek_for_the_empty_name_finds_an_entry_without_pathname() {
    let mut r = scanning(1, 2, "");
    r.advance(status(ARCHIVE_OK));
    r.advance(ReadReply::Entry(EntryRecord { pathname: None, ..entry("x", 3) }));
    assert_eq!(r.take_outcome(), Some(Ok(ReadOutput::Done)));
    assert_eq!(r.current_entry().map(|m| m.filepath().to_string()), Some(String::new()));
}

#[test]
fn seek_for_a_missing_entry_is_not_found() {
    let mut r = scanning(1, 2, "does_not_exist.txt");
    for name in ["test2.txt", "random.txt"] {
        r.advance(status(ARCHIVE_OK));
        r.advance(ReadReply::Entry(entry(name, 1)));
    }
    r.advance(status(ARCHIVE_EOF));
    assert_eq!(r.pending(), None);
    assert_eq!(
        r.take_outcome(),
        Some(Err(Error::IO(IoError::NotFound(
            "path does_not_exist.txt doesn't exist inside archive".to_string()
        ))))
    );
    assert_eq!(r.get_archive(), Ok(2));
    assert_eq!(r.current_entry(), None);
}

#[test]
fn seek_after_not_found_starts_over_and_succeeds() {
    let mut r = scanning(1, 2, "does_not_exist.txt");
    r.advance(status(ARCHIVE_OK));
    r.advance(ReadReply::Entry(entry("test2.txt", 1)));
    r.advance(status(ARCHIVE_OK));
    r.advance(ReadReply::Entry(entry("random.txt", 1000)));
    r.advance(status(ARCHIVE_EOF));
    assert!(matches!(r.take_outcome(), Some(Err(Error::IO(IoError::NotFound(_))))));

    r.reader_seek_obj("test2.txt");
    assert_eq!(r.pending(), Some(ReadRequest::Rewind));
    r.advance(ReadReply::Rewound(Ok(0)));
    assert_eq!(r.pending(), Some(ReadRequest::Free(2)));
    r.advance(status(ARCHIVE_OK));
    r.advance(ReadReply::Session(3));
    for _ in 0..4 {
        r.advance(status(ARCHIVE_OK));
    }
    r.advance(status(ARCHIVE_OK));
    r.advance(ReadReply::Entry(entry("test2.txt", 1)));
    assert_eq!(r.take_outcome(), Some(Ok(ReadOutput::Done)));
    assert_eq!(r.get_archive(), Ok(3));
    assert_eq!(r.current_entry().map(|m| m.filepath()), Some("test2.txt"));
}

#[test]
fn seek_gives_up_the_previous_entry() {
    let mut r = scanning(1, 2, "a");
    r.advance(status(ARCHIVE_OK));
    r.advance(ReadReply::Entry(entry("a", 1)));
    assert!(r.current_entry().is_some());
    r.reader_seek_obj("b");
    assert_eq!(r.current_entry(), None);
}

#[test]
fn seek_fails_when_the_stream_cannot_rewind() {
    let mut r = ready(4);
    r.reader_seek_obj("a");
    let f = StreamFailure { description: "Illegal seek".to_string(), os_code: Some(29) };
    r.advance(ReadReply::Rewound(Err(f.clone())));
    assert_eq!(r.pending(), None);
    assert_eq!(r.take_outcome(), Some(Err(Error::IO(IoError::Stream(f)))));
    assert_eq!(r.get_archive(), Ok(4));
}

#[test]
fn seek_fails_when_the_old_session_cannot_be_freed() {
    let mut r = ready(4);
    r.reader_seek_obj("a");
    r.advance(ReadReply::Rewound(Ok(0)));
    r.advance(ReadReply::Status(ARCHIVE_FATAL, said("cannot close")));
    assert_eq!(r.pending(), None);
    assert_eq!(r.take_outcome(), Some(Err(Error::Extraction("cannot close".to_string()))));
    assert_eq!(r.get_archive(), Err(Error::NullArchive));
}

#[test]
fn seek_fails_when_no_fresh_session_can_be_had() {
    let mut r = ready(4);
    r.reader_seek_obj("a");
    r.advance(ReadReply::Rewound(Ok(0)));
    r.advance(status(ARCHIVE_OK));
    r.advance(ReadReply::Session(0));
    assert_eq!(r.take_outcome(), Some(Err(Error::NullArchive)));
    assert_eq!(r.get_archive(), Err(Error::NullArchive));
    r.reader_seek_obj("a");
    assert_eq!(r.pending(), None);
    assert_eq!(r.take_outcome(), Some(Err(Error::NullArchive)));
}

#[test]
fn seek_fails_when_a_header_cannot_be_read() {
    let mut r = scanning(1, 2, "a");
    r.advance(ReadReply::Status(ARCHIVE_FAILED, Diagnostic { message: None, errno: 0 }));
    assert_eq!(
        r.take_outcome(),
        Some(Err(Error::Unknown("Cannot read error string from archive".to_string())))
    );
    assert_eq!(r.get_archive(), Ok(2));
}

#[test]
fn read_reports_the_bytes_produced() {
    let mut r = ready(6);
    r.read(40960);
    assert_eq!(r.pending(), Some(ReadRequest::ReadData(6, 40960)));
    r.advance(ReadReply::Data(1000, quiet()));
    assert_eq!(r.pending(), None);
    assert_eq!(r.take_outcome(), Some(Ok(ReadOutput::Bytes(1000))));
}

#[test]
fn read_of_zero_bytes_is_the_end_of_the_entry() {
    let mut r = ready(6);
    r.read(16);
    r.advance(ReadReply::Data(0, quiet()));
    assert_eq!(r.take_outcome(), Some(Ok(ReadOutput::Bytes(0))));
    assert_eq!(r.get_archive(), Ok(6));
}

#[test]
fn read_treats_a_negative_count_as_an_error() {
    for n in [-1isize, -25, -30, isize::MIN] {
        let mut r = ready(6);
        r.read(16);
        r.advance(ReadReply::Data(n, said("Truncated bzip2 input")));
        assert_eq!(
            r.take_outcome(),
            Some(Err(Error::Extraction("Truncated bzip2 input".to_string())))
        );
    }
}

#[test]
fn teardown_frees_the_session() {
    let mut r = ready(6);
    r.free();
    assert_eq!(r.pending(), Some(ReadRequest::Free(6)));
    r.advance(status(ARCHIVE_OK));
    assert_eq!(r.pending(), None);
    assert_eq!(r.take_outcome(), Some(Ok(ReadOutput::Done)));
    assert_eq!(r.get_archive(), Err(Error::NullArchive));
}

#[test]
fn teardown_reports_a_failed_free() {
    let mut r = ready(6);
    r.free();
    r.advance(ReadReply::Status(ARCHIVE_FAILED, Diagnostic { message: None, errno: 9 }));
    assert_eq!(r.take_outcome(), Some(Err(Error::IO(IoError::Os(9)))));
    assert_eq!(r.get_archive(), Err(Error::NullArchive));
}

#[test]
fn without_a_session_every_operation_is_refused() {
    let mut r = ready(6);
    r.free();
    r.advance(status(ARCHIVE_OK));
    r.take_outcome();
    r.list_files();
    assert_eq!((r.pending(), r.take_outcome()), (None, Some(Err(Error::NullArchive))));
    r.reader_seek_obj("a");
    assert_eq!((r.pending(), r.take_outcome()), (None, Some(Err(Error::NullArchive))));
    r.read(1);
    assert_eq!((r.pending(), r.take_outcome()), (None, Some(Err(Error::NullArchive))));
    r.free();
    assert_eq!((r.pending(), r.take_outcome()), (None, Some(Err(Error::NullArchive))));
}

#[test]
fn a_reply_that_answers_nothing_is_dropped() {
    let mut r = ArchiveReader::new();
    r.advance(status(ARCHIVE_OK));
    r.advance(ReadReply::Entry(entry("a", 1)));
    r.advance(ReadReply::Data(3, quiet()));
    r.advance(ReadReply::Rewound(Ok(0)));
    assert_eq!(r, ArchiveReader::new());
    let mut idle = ready(3);
    idle.advance(ReadReply::Session(8));
    idle.advance(status(ARCHIVE_FATAL));
    assert_eq!(idle, ready(3));
}

#[test]
fn an_operation_begun_while_another_runs_is_dropped() {
    let mut r = ready(3);
    r.list_files();
    r.reader_seek_obj("a");
    r.read(5);
    r.free();
    assert_eq!(r.pending(), Some(ReadRequest::NextHeader(3)));
    let mut fresh = ArchiveReader::new();
    fresh.list_files();
    assert_eq!(fresh, ArchiveReader::new());
}
