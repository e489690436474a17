//! The write side: the life of one write session, as a state machine.
//!
//! An [`ArchiveWriter`] never calls the engine. It names the request that is
//! due ([`ArchiveWriter::pending`]), takes the reply
//! ([`ArchiveWriter::advance`]) and decides what follows. When no request is
//! due, the operation has ended and its result waits in
//! [`ArchiveWriter::take_outcome`].

use crate::carchive::{
    is_success, status_ok, Diagnostic, FileAttributes, StreamFailure, ARCHIVE_FILTER_BZIP2,
    ARCHIVE_FILTER_GZIP, ARCHIVE_FILTER_LRZIP, ARCHIVE_FILTER_LZ4, ARCHIVE_FILTER_LZIP,
    ARCHIVE_FILTER_LZMA, ARCHIVE_FILTER_LZOP, ARCHIVE_FILTER_NONE, ARCHIVE_FILTER_XZ,
    ARCHIVE_FILTER_ZSTD, ARCHIVE_FORMAT_7ZIP, ARCHIVE_FORMAT_TAR, ARCHIVE_FORMAT_XAR,
    ARCHIVE_FORMAT_ZIP, BUFFER_SIZE,
};
use crate::error::{diagnosed, stream_error, translated, Error, ErrorView};
use crate::kinds::{Filter, Format};
use crate::metadata::{filesystem_metadata, Metadata, MetadataView};
use crate::text::{decimal, decimal_text};
use libc::{c_int, gid_t, mode_t, uid_t};
use vstd::prelude::*;

verus! {

/// One configuration call on a write session.
#[derive(Debug, PartialEq, Eq)]
pub enum Setting {
    /// Set the output format.
    Format(c_int),
    /// Add the output filter.
    Filter(c_int),
    /// Set a named option of the filter: name, value.
    FilterOption(String, String),
    /// Set a named option of the format: name, value.
    FormatOption(String, String),
}

pub ghost enum SettingView {
    Format(c_int),
    Filter(c_int),
    FilterOption(Seq<char>, Seq<char>),
    FormatOption(Seq<char>, Seq<char>),
}

impl View for Setting {
    type V = SettingView;

    open spec fn view(&self) -> SettingView {
        match *self {
            Setting::Format(format) => SettingView::Format(format),
            Setting::Filter(filter) => SettingView::Filter(filter),
            Setting::FilterOption(name, value) => SettingView::FilterOption(name@, value@),
            Setting::FormatOption(name, value) => SettingView::FormatOption(name@, value@),
        }
    }
}

impl Clone for Setting {
    fn clone(&self) -> (copy: Setting)
        ensures
            copy@ == self@,
    {
        match self {
            Setting::Format(format) => Setting::Format(*format),
            Setting::Filter(filter) => Setting::Filter(*filter),
            Setting::FilterOption(name, value) => Setting::FilterOption(name.clone(), value.clone()),
            Setting::FormatOption(name, value) => Setting::FormatOption(name.clone(), value.clone()),
        }
    }
}

pub open spec fn setting_views(settings: Seq<Setting>) -> Seq<SettingView> {
    settings.map_values(|s: Setting| s@)
}

/// What is set on an engine entry before its header is written.
#[derive(Debug, PartialEq, Eq)]
pub struct EntryHeader {
    pub pathname: String,
    pub size: i64,
    /// The node type bits combined with the permission bits.
    pub mode: mode_t,
    pub perm: mode_t,
    pub ctime: i64,
    pub ctime_nsec: i64,
    pub mtime: i64,
    pub mtime_nsec: i64,
    pub atime: i64,
    pub atime_nsec: i64,
    pub uid: uid_t,
    pub gid: gid_t,
}

pub ghost struct EntryHeaderView {
    pub pathname: Seq<char>,
    pub size: i64,
    pub mode: mode_t,
    pub perm: mode_t,
    pub ctime: i64,
    pub ctime_nsec: i64,
    pub mtime: i64,
    pub mtime_nsec: i64,
    pub atime: i64,
    pub atime_nsec: i64,
    pub uid: uid_t,
    pub gid: gid_t,
}

impl View for EntryHeader {
    type V = EntryHeaderView;

    open spec fn view(&self) -> EntryHeaderView {
        EntryHeaderView {
            pathname: self.pathname@,
            size: self.size,
            mode: self.mode,
            perm: self.perm,
            ctime: self.ctime,
            ctime_nsec: self.ctime_nsec,
            mtime: self.mtime,
            mtime_nsec: self.mtime_nsec,
            atime: self.atime,
            atime_nsec: self.atime_nsec,
            uid: self.uid,
            gid: self.gid,
        }
    }
}

/// The header of the entry that stores a file with the attributes `meta`
/// under `path`. The path of `meta` itself plays no part.
pub open spec fn entry_header(path: Seq<char>, meta: MetadataView) -> EntryHeaderView {
    EntryHeaderView {
        pathname: path,
        size: meta.size,
        mode: meta.nodetype | meta.perm,
        perm: meta.perm,
        ctime: meta.ctime,
        ctime_nsec: meta.ctime_nano,
        mtime: meta.mtime,
        mtime_nsec: meta.mtime_nano,
        atime: meta.atime,
        atime_nsec: meta.atime_nano,
        uid: meta.owner,
        gid: meta.group,
    }
}

/// A header with nothing in it.
pub open spec fn blank_header() -> EntryHeaderView {
    EntryHeaderView {
        pathname: Seq::empty(),
        size: 0,
        mode: 0,
        perm: 0,
        ctime: 0,
        ctime_nsec: 0,
        mtime: 0,
        mtime_nsec: 0,
        atime: 0,
        atime_nsec: 0,
        uid: 0,
        gid: 0,
    }
}

impl EntryHeader {
    /// The header of the entry that stores a file with the attributes
    /// `meta` under `path`.
    pub fn new(path: &str, meta: &Metadata) -> (header: EntryHeader)
        ensures
            header@ == entry_header(path@, meta@),
    {
        EntryHeader {
            pathname: String::from_str(path),
            size: meta.size(),
            mode: meta.nodetype() | meta.perm(),
            perm: meta.perm(),
            ctime: meta.ctime(),
            ctime_nsec: meta.ctime_nano(),
            mtime: meta.mtime(),
            mtime_nsec: meta.mtime_nano(),
            atime: meta.atime(),
            atime_nsec: meta.atime_nano(),
            uid: meta.owner(),
            gid: meta.group(),
        }
    }

    fn blank() -> (header: EntryHeader)
        ensures
            header@ == blank_header(),
    {
        EntryHeader {
            pathname: String::new(),
            size: 0,
            mode: 0,
            perm: 0,
            ctime: 0,
            ctime_nsec: 0,
            mtime: 0,
            mtime_nsec: 0,
            atime: 0,
            atime_nsec: 0,
            uid: 0,
            gid: 0,
        }
    }
}

impl Clone for EntryHeader {
    fn clone(&self) -> (copy: EntryHeader)
        ensures
            copy@ == self@,
    {
        EntryHeader {
            pathname: self.pathname.clone(),
            size: self.size,
            mode: self.mode,
            perm: self.perm,
            ctime: self.ctime,
            ctime_nsec: self.ctime_nsec,
            mtime: self.mtime,
            mtime_nsec: self.mtime_nsec,
            atime: self.atime,
            atime_nsec: self.atime_nsec,
            uid: self.uid,
            gid: self.gid,
        }
    }
}

/// Where the writer stands. Every phase but `Idle` awaits one reply. A phase
/// that owns a session carries its handle.
#[derive(Clone, Copy, Debug, PartialEq, Eq, Structural)]
pub enum WriterPhase {
    /// Nothing is due. The session, if there is one, is ready for use.
    Idle(Option<usize>),
    /// A new session was asked for.
    Allocating,
    /// Padding of the last block is being switched off.
    Preparing(usize),
    /// The first of the settings that are left is being applied.
    Applying(usize),
    /// The session is being opened on the bridge.
    Opening(usize),
    /// Adding a file: the local file is being opened.
    Locating(usize),
    /// Adding an entry: its header is being written.
    Heading(usize),
    /// Adding an entry: a chunk of payload is being read from the source.
    Fetching(usize),
    /// Adding an entry: a chunk of so many bytes is being written.
    Storing(usize, usize),
    /// Adding an entry: the entry is being released.
    Finishing(usize),
    /// The session is being freed for good.
    Closing(usize),
}

/// A request to the engine, to the payload source or to the filesystem.
#[derive(Debug, PartialEq, Eq)]
pub enum WriteRequest {
    /// Allocate a write session. Answered by `Session`.
    NewSession,
    /// Set the size of the last block of output. Answered by `Status`.
    SetBytesInLastBlock(usize, c_int),
    /// Make one configuration call. Answered by `Status`.
    Apply(usize, Setting),
    /// Open the session on the bridge, with the push callback. Answered by `Status`.
    Open(usize),
    /// Open the local file of this path and read its attributes. Answered by `File`.
    OpenFile(String),
    /// Allocate an entry, set these fields on it and write its header.
    /// Answered by `Status`.
    WriteHeader(usize, EntryHeader),
    /// Read at most so many bytes of payload from the source. Answered by `Chunk`.
    ReadChunk(usize),
    /// Write the first so many bytes of the chunk as payload. Answered by `Written`.
    WriteData(usize, usize),
    /// Release the entry. Answered by `EntryFreed`.
    FreeEntry,
    /// Free the session. Answered by `Status`.
    Free(usize),
}

pub ghost enum WriteRequestView {
    NewSession,
    SetBytesInLastBlock(usize, c_int),
    Apply(usize, SettingView),
    Open(usize),
    OpenFile(Seq<char>),
    WriteHeader(usize, EntryHeaderView),
    ReadChunk(usize),
    WriteData(usize, usize),
    FreeEntry,
    Free(usize),
}

impl View for WriteRequest {
    type V = WriteRequestView;

    open spec fn view(&self) -> WriteRequestView {
        match *self {
            WriteRequest::NewSession => WriteRequestView::NewSession,
            WriteRequest::SetBytesInLastBlock(h, n) => WriteRequestView::SetBytesInLastBlock(h, n),
            WriteRequest::Apply(h, setting) => WriteRequestView::Apply(h, setting@),
            WriteRequest::Open(h) => WriteRequestView::Open(h),
            WriteRequest::OpenFile(path) => WriteRequestView::OpenFile(path@),
            WriteRequest::WriteHeader(h, header) => WriteRequestView::WriteHeader(h, header@),
            WriteRequest::ReadChunk(room) => WriteRequestView::ReadChunk(room),
            WriteRequest::WriteData(h, n) => WriteRequestView::WriteData(h, n),
            WriteRequest::FreeEntry => WriteRequestView::FreeEntry,
            WriteRequest::Free(h) => WriteRequestView::Free(h),
        }
    }
}

pub open spec fn request_view(request: Option<WriteRequest>) -> Option<WriteRequestView> {
    match request {
        Some(r) => Some(r@),
        None => None,
    }
}

/// A reply to a [`WriteRequest`].
#[derive(Debug, PartialEq, Eq)]
pub enum WriteReply {
    /// The handle of the new session; 0 is the null handle.
    Session(usize),
    /// The status of an engine call, and the diagnostic state after it.
    Status(c_int, Diagnostic),
    /// The attributes of the opened file, or why it could not be opened.
    File(Result<FileAttributes, StreamFailure>),
    /// The number of bytes that the source gave, 0 at its end.
    Chunk(Result<usize, StreamFailure>),
    /// The count that the payload write returned, and the diagnostic state after it.
    Written(isize, Diagnostic),
    /// The entry has been released.
    EntryFreed,
}

pub type WriteResult = Result<(), ErrorView>;

pub open spec fn result_view(r: Result<(), Error>) -> WriteResult {
    match r {
        Ok(_) => Ok(()),
        Err(e) => Err(e@),
    }
}

pub open spec fn outcome_view(o: Option<Result<(), Error>>) -> Option<WriteResult> {
    match o {
        Some(r) => Some(result_view(r)),
        None => None,
    }
}

/// The three compression presets.
#[derive(Clone, Copy, Debug, PartialEq, Eq, Structural)]
pub enum Preset {
    High,
    Mid,
    Low,
}

/// The marker of a format or filter that was never set.
pub const UNSET: c_int = -1;

/// The highest compression level of a filter, where the filter has levels.
pub open spec fn filter_top_level(filter: c_int) -> Option<u32> {
    if filter == ARCHIVE_FILTER_ZSTD {
        Some(22)
    } else if filter == ARCHIVE_FILTER_BZIP2 || filter == ARCHIVE_FILTER_GZIP || filter
        == ARCHIVE_FILTER_LRZIP || filter == ARCHIVE_FILTER_XZ || filter == ARCHIVE_FILTER_LZ4
        || filter == ARCHIVE_FILTER_LZIP || filter == ARCHIVE_FILTER_LZMA || filter
        == ARCHIVE_FILTER_LZOP {
        Some(9)
    } else {
        None
    }
}

/// The highest compression level of a format, where the format has levels.
pub open spec fn format_top_level(format: c_int) -> Option<u32> {
    if format == ARCHIVE_FORMAT_7ZIP || format == ARCHIVE_FORMAT_XAR || format
        == ARCHIVE_FORMAT_ZIP {
        Some(9)
    } else {
        None
    }
}

/// The level that a preset picks where the highest level is `top`: the
/// highest, half of it rounded down, or none at all.
pub open spec fn preset_level(preset: Preset, top: u32) -> u32 {
    match preset {
        Preset::High => top,
        Preset::Mid => top / 2,
        Preset::Low => 0,
    }
}

pub open spec fn level_name() -> Seq<char> {
    "compression-level"@
}

/// The filter option that a preset sets; none for a filter without levels.
pub open spec fn filter_level_option(preset: Preset, filter: c_int) -> Seq<SettingView> {
    match filter_top_level(filter) {
        Some(top) => seq![
            SettingView::FilterOption(level_name(), decimal(preset_level(preset, top) as nat)),
        ],
        None => Seq::empty(),
    }
}

/// The format option that a preset sets; none for a format without levels.
pub open spec fn format_level_option(preset: Preset, format: c_int) -> Seq<SettingView> {
    match format_top_level(format) {
        Some(top) => seq![
            SettingView::FormatOption(level_name(), decimal(preset_level(preset, top) as nat)),
        ],
        None => Seq::empty(),
    }
}

/// The settings that a compression preset applies to a writer with this
/// filter and this format. "High" and "mid" set the filter's level first,
/// "low" the format's.
pub open spec fn compression_plan(preset: Preset, filter: c_int, format: c_int) -> Seq<
    SettingView,
> {
    match preset {
        Preset::Low => format_level_option(preset, format) + filter_level_option(preset, filter),
        _ => filter_level_option(preset, filter) + format_level_option(preset, format),
    }
}

/// The settings of a bundle of one format and one filter.
pub open spec fn bundle(format: c_int, filter: c_int) -> Seq<SettingView> {
    seq![SettingView::Format(format), SettingView::Filter(filter)]
}

/// The settings of a bundle whose format compresses by a named method.
pub open spec fn bundle_with_method(format: c_int, method: Seq<char>) -> Seq<SettingView> {
    seq![
        SettingView::Format(format),
        SettingView::Filter(ARCHIVE_FILTER_NONE),
        SettingView::FormatOption("compression"@, method),
    ]
}

/// The writer as a mathematical value.
pub ghost struct WriterModel {
    pub phase: WriterPhase,
    /// The format that was set, negative while none was.
    pub file_format: c_int,
    /// The filter that was set, negative while none was.
    pub file_filter: c_int,
    /// The settings that are still to be applied; the first one is pending.
    pub script: Seq<SettingView>,
    /// Adding a file: its path on disk, and its path in the archive.
    pub local_path: Seq<char>,
    pub archive_path: Seq<char>,
    /// The header of the entry that is being added.
    pub header: EntryHeaderView,
    /// The result that is reported once the entry or the session is released.
    pub held: Option<WriteResult>,
    /// The result of the operation that ended last, until it is taken.
    pub outcome: Option<WriteResult>,
}

impl WriterModel {
    /// A writer that has just asked for its session.
    pub open spec fn initial() -> WriterModel {
        WriterModel {
            phase: WriterPhase::Allocating,
            file_format: UNSET,
            file_filter: UNSET,
            script: Seq::empty(),
            local_path: Seq::empty(),
            archive_path: Seq::empty(),
            header: blank_header(),
            held: None,
            outcome: None,
        }
    }

    /// The handle of the session that the writer owns.
    pub open spec fn session(self) -> Option<usize> {
        match self.phase {
            WriterPhase::Idle(session) => session,
            WriterPhase::Allocating => None,
            WriterPhase::Preparing(h) => Some(h),
            WriterPhase::Applying(h) => Some(h),
            WriterPhase::Opening(h) => Some(h),
            WriterPhase::Locating(h) => Some(h),
            WriterPhase::Heading(h) => Some(h),
            WriterPhase::Fetching(h) => Some(h),
            WriterPhase::Storing(h, _) => Some(h),
            WriterPhase::Finishing(h) => Some(h),
            WriterPhase::Closing(h) => Some(h),
        }
    }

    /// What holds of every writer: a session handle in the state is never
    /// the null handle; settings are left exactly while settings are being
    /// applied; and a result is held back only while an entry or the session
    /// is being released.
    pub open spec fn wf(self) -> bool {
        &&& self.session() != Some(0usize)
        &&& self.phase is Applying <==> self.script.len() > 0
        &&& self.held is Some ==> self.phase is Finishing || self.phase is Closing
    }

    pub open spec fn idle(self) -> bool {
        self.phase is Idle
    }

    /// Whether an entry of the engine is allocated and not yet released.
    pub open spec fn entry_open(self) -> bool {
        self.phase is Heading || self.phase is Fetching || self.phase is Storing
            || self.phase is Finishing
    }

    /// The request that awaits its reply.
    pub open spec fn pending(self) -> Option<WriteRequestView> {
        match self.phase {
            WriterPhase::Idle(_) => None,
            WriterPhase::Allocating => Some(WriteRequestView::NewSession),
            WriterPhase::Preparing(h) => Some(WriteRequestView::SetBytesInLastBlock(h, 1)),
            WriterPhase::Applying(h) => if self.script.len() > 0 {
                Some(WriteRequestView::Apply(h, self.script[0]))
            } else {
                None
            },
            WriterPhase::Opening(h) => Some(WriteRequestView::Open(h)),
            WriterPhase::Locating(_) => Some(WriteRequestView::OpenFile(self.local_path)),
            WriterPhase::Heading(h) => Some(WriteRequestView::WriteHeader(h, self.header)),
            WriterPhase::Fetching(_) => Some(WriteRequestView::ReadChunk(BUFFER_SIZE)),
            WriterPhase::Storing(h, n) => Some(WriteRequestView::WriteData(h, n)),
            WriterPhase::Finishing(_) => Some(WriteRequestView::FreeEntry),
            WriterPhase::Closing(h) => Some(WriteRequestView::Free(h)),
        }
    }

    /// The operation ends: nothing is due, and `result` waits to be taken.
    pub open spec fn finish(self, session: Option<usize>, result: WriteResult) -> WriterModel {
        WriterModel { phase: WriterPhase::Idle(session), outcome: Some(result), ..self }
    }

    /// The session is freed next, and `result` is reported after that.
    pub open spec fn close_with(self, h: usize, result: WriteResult) -> WriterModel {
        WriterModel { phase: WriterPhase::Closing(h), held: Some(result), ..self }
    }

    /// The entry is released next, and `result` is reported after that.
    pub open spec fn release_entry(self, h: usize, result: WriteResult) -> WriterModel {
        WriterModel { phase: WriterPhase::Finishing(h), held: Some(result), ..self }
    }

    /// After the engine has answered the request for a session.
    pub open spec fn after_session(self, h: usize) -> WriterModel {
        if h == 0 {
            self.finish(None, Err(ErrorView::NullArchive))
        } else {
            WriterModel { phase: WriterPhase::Preparing(h), ..self }
        }
    }

    /// After padding of the last block has been switched off: the writer is
    /// constructed, or the call failed and the session is freed.
    pub open spec fn after_prepare(self, h: usize, code: c_int, diag: Diagnostic) -> WriterModel {
        if status_ok(code) {
            self.finish(Some(h), Ok(()))
        } else {
            self.close_with(h, Err(diagnosed(diag)))
        }
    }

    /// The writer once a setting has taken effect: the format and the
    /// filter are remembered, an option leaves no trace.
    pub open spec fn remember(self, setting: SettingView) -> WriterModel {
        match setting {
            SettingView::Format(format) => WriterModel { file_format: format, ..self },
            SettingView::Filter(filter) => WriterModel { file_filter: filter, ..self },
            _ => self,
        }
    }

    /// After a configuration call has returned. A failure drops the
    /// settings that are left. A success is remembered and leads to the
    /// next setting, or ends the operation after the last.
    pub open spec fn after_apply(self, h: usize, code: c_int, diag: Diagnostic) -> WriterModel {
        if self.script.len() == 0 {
            self
        } else if !status_ok(code) {
            WriterModel { script: Seq::empty(), ..self }.finish(Some(h), Err(diagnosed(diag)))
        } else {
            let next = WriterModel { script: self.script.remove(0), ..self }.remember(
                self.script[0],
            );
            if next.script.len() == 0 {
                next.finish(Some(h), Ok(()))
            } else {
                next
            }
        }
    }

    /// After the session has been opened.
    pub open spec fn after_open(self, h: usize, code: c_int, diag: Diagnostic) -> WriterModel {
        self.finish(Some(h), translated(code, diag))
    }

    /// Adding a file, after the local file has been opened.
    pub open spec fn after_locate(self, h: usize, r: Result<FileAttributes, StreamFailure>)
        -> WriterModel {
        match r {
            Ok(attrs) => WriterModel {
                phase: WriterPhase::Heading(h),
                header: entry_header(self.archive_path, filesystem_metadata(attrs)),
                ..self
            },
            Err(failure) => self.finish(Some(h), Err(ErrorView::IO(stream_error(failure)))),
        }
    }

    /// Adding an entry, after its header has been written.
    pub open spec fn after_header(self, h: usize, code: c_int, diag: Diagnostic) -> WriterModel {
        if status_ok(code) {
            WriterModel { phase: WriterPhase::Fetching(h), ..self }
        } else {
            self.release_entry(h, Err(diagnosed(diag)))
        }
    }

    /// Adding an entry, after the source has been read. No bytes means the
    /// payload is complete.
    pub open spec fn after_chunk(self, h: usize, r: Result<usize, StreamFailure>) -> WriterModel {
        match r {
            Ok(n) => if n == 0 {
                self.release_entry(h, Ok(()))
            } else {
                WriterModel { phase: WriterPhase::Storing(h, n), ..self }
            },
            Err(failure) => self.release_entry(h, Err(ErrorView::IO(stream_error(failure)))),
        }
    }

    /// Adding an entry, after a chunk of `n` bytes has been written. Any
    /// count but `n` is a failure.
    pub open spec fn after_written(self, h: usize, n: usize, count: isize, diag: Diagnostic)
        -> WriterModel {
        if count == n {
            WriterModel { phase: WriterPhase::Fetching(h), ..self }
        } else {
            self.release_entry(h, Err(diagnosed(diag)))
        }
    }

    /// Adding an entry, after the entry has been released.
    pub open spec fn after_entry_freed(self, h: usize) -> WriterModel {
        let result = match self.held {
            Some(r) => r,
            None => Ok(()),
        };
        WriterModel { held: None, ..self }.finish(Some(h), result)
    }

    /// After the session has been freed for good. A held result is
    /// reported and the status of the free is dropped; with no held result
    /// the status of the free is the result.
    pub open spec fn after_close(self, code: c_int, diag: Diagnostic) -> WriterModel {
        let result = match self.held {
            Some(r) => r,
            None => translated(code, diag),
        };
        WriterModel { held: None, ..self }.finish(None, result)
    }

    /// The writer after a reply. A reply that does not answer the pending
    /// request changes nothing.
    pub open spec fn advance(self, reply: WriteReply) -> WriterModel {
        match (self.phase, reply) {
            (WriterPhase::Allocating, WriteReply::Session(h)) => self.after_session(h),
            (WriterPhase::Preparing(h), WriteReply::Status(code, diag)) => {
                self.after_prepare(h, code, diag)
            },
            (WriterPhase::Applying(h), WriteReply::Status(code, diag)) => {
                self.after_apply(h, code, diag)
            },
            (WriterPhase::Opening(h), WriteReply::Status(code, diag)) => {
                self.after_open(h, code, diag)
            },
            (WriterPhase::Locating(h), WriteReply::File(r)) => self.after_locate(h, r),
            (WriterPhase::Heading(h), WriteReply::Status(code, diag)) => {
                self.after_header(h, code, diag)
            },
            (WriterPhase::Fetching(h), WriteReply::Chunk(r)) => self.after_chunk(h, r),
            (WriterPhase::Storing(h, n), WriteReply::Written(count, diag)) => {
                self.after_written(h, n, count, diag)
            },
            (WriterPhase::Finishing(h), WriteReply::EntryFreed) => self.after_entry_freed(h),
            (WriterPhase::Closing(_), WriteReply::Status(code, diag)) => {
                self.after_close(code, diag)
            },
            _ => self,
        }
    }

    /// The writer after a sequence of replies, taken one after the other.
    pub open spec fn run(self, replies: Seq<WriteReply>) -> WriterModel
        decreases replies.len(),
    {
        if replies.len() == 0 {
            self
        } else {
            self.advance(replies[0]).run(replies.skip(1))
        }
    }

    /// An operation on a writer that owns no session fails at once.
    pub open spec fn refuse(self) -> WriterModel {
        self.finish(None, Err(ErrorView::NullArchive))
    }

    /// The settings of `plan` are applied in their order, up to the first
    /// that fails. An empty plan succeeds at once. While a request is
    /// pending nothing changes.
    pub open spec fn configure(self, plan: Seq<SettingView>) -> WriterModel {
        match self.phase {
            WriterPhase::Idle(Some(h)) => if plan.len() == 0 {
                self.finish(Some(h), Ok(()))
            } else {
                WriterModel {
                    phase: WriterPhase::Applying(h),
                    script: plan,
                    outcome: None,
                    ..self
                }
            },
            WriterPhase::Idle(None) => self.refuse(),
            _ => self,
        }
    }

    /// Opening begins, unless the format or the filter was never set: then
    /// it fails at once, and no request is made.
    pub open spec fn open(self) -> WriterModel {
        match self.phase {
            WriterPhase::Idle(session) => if self.file_format < 0 || self.file_filter < 0 {
                self.finish(session, Err(ErrorView::IncompleteInitialization))
            } else {
                match session {
                    Some(h) => WriterModel {
                        phase: WriterPhase::Opening(h),
                        outcome: None,
                        ..self
                    },
                    None => self.refuse(),
                }
            },
            _ => self,
        }
    }

    /// Adding an entry with this header begins.
    pub open spec fn add_entry(self, header: EntryHeaderView) -> WriterModel {
        match self.phase {
            WriterPhase::Idle(Some(h)) => WriterModel {
                phase: WriterPhase::Heading(h),
                header: header,
                outcome: None,
                ..self
            },
            WriterPhase::Idle(None) => self.refuse(),
            _ => self,
        }
    }

    /// Adding the local file `local` under the path `path` begins.
    pub open spec fn add_file(self, local: Seq<char>, path: Seq<char>) -> WriterModel {
        match self.phase {
            WriterPhase::Idle(Some(h)) => WriterModel {
                phase: WriterPhase::Locating(h),
                local_path: local,
                archive_path: path,
                outcome: None,
                ..self
            },
            WriterPhase::Idle(None) => self.refuse(),
            _ => self,
        }
    }

    /// Teardown begins.
    pub open spec fn free(self) -> WriterModel {
        match self.phase {
            WriterPhase::Idle(Some(h)) => WriterModel {
                phase: WriterPhase::Closing(h),
                held: None,
                outcome: None,
                ..self
            },
            WriterPhase::Idle(None) => self.refuse(),
            _ => self,
        }
    }
}

/// The highest compression level of a filter, where the filter has levels.
/// An integer that names no filter has none.
pub fn filter_level(filter: c_int) -> (top: Option<u32>)
    ensures
        top == filter_top_level(filter),
{
    match Filter::from_code(filter) {
        Ok(kind) => kind.top_level(),
        Err(_) => {
            assert(Filter::Zstd.raw() != filter && Filter::Bzip2.raw() != filter
                && Filter::Gzip.raw() != filter && Filter::Lrzip.raw() != filter
                && Filter::Xz.raw() != filter && Filter::Lz4.raw() != filter
                && Filter::Lzip.raw() != filter && Filter::Lzma.raw() != filter
                && Filter::Lzop.raw() != filter);
            None
        },
    }
}

/// The highest compression level of a format, where the format has levels.
/// An integer that names no format has none.
pub fn format_level(format: c_int) -> (top: Option<u32>)
    ensures
        top == format_top_level(format),
{
    match Format::from_code(format) {
        Ok(kind) => kind.top_level(),
        Err(_) => {
            assert(Format::SevenZip.raw() != format && Format::Xar.raw() != format
                && Format::Zip.raw() != format);
            None
        },
    }
}

/// The level that a preset picks where the highest level is `top`.
pub fn level_for(preset: Preset, top: u32) -> (level: u32)
    ensures
        level == preset_level(preset, top),
{
    match preset {
        Preset::High => top,
        Preset::Mid => top / 2,
        Preset::Low => 0,
    }
}

/// The settings that a compression preset applies to a writer with this
/// filter and this format.
pub fn preset_plan(preset: Preset, filter: c_int, format: c_int) -> (plan: Vec<Setting>)
    ensures
        setting_views(plan@) == compression_plan(preset, filter, format),
{
    let mut plan: Vec<Setting> = Vec::new();
    let filter_option = match filter_level(filter) {
        Some(top) => Some(
            Setting::FilterOption(
                String::from_str("compression-level"),
                decimal_text(level_for(preset, top)),
            ),
        ),
        None => None,
    };
    let format_option = match format_level(format) {
        Some(top) => Some(
            Setting::FormatOption(
                String::from_str("compression-level"),
                decimal_text(level_for(preset, top)),
            ),
        ),
        None => None,
    };
    match preset {
        Preset::Low => {
            if let Some(option) = format_option {
                plan.push(option);
            }
            if let Some(option) = filter_option {
                plan.push(option);
            }
        },
        _ => {
            if let Some(option) = filter_option {
                plan.push(option);
            }
            if let Some(option) = format_option {
                plan.push(option);
            }
        },
    }
    assert(setting_views(plan@) =~= compression_plan(preset, filter, format));
    plan
}

/// The write side of the adapter: one write session and what is being done
/// with it.
#[derive(Debug, PartialEq, Eq)]
pub struct ArchiveWriter {
    phase: WriterPhase,
    file_format: c_int,
    file_filter: c_int,
    script: Vec<Setting>,
    local_path: String,
    archive_path: String,
    header: EntryHeader,
    held: Option<Result<(), Error>>,
    outcome: Option<Result<(), Error>>,
}

impl View for ArchiveWriter {
    type V = WriterModel;

    closed spec fn view(&self) -> WriterModel {
        WriterModel {
            phase: self.phase,
            file_format: self.file_format,
            file_filter: self.file_filter,
            script: setting_views(self.script@),
            local_path: self.local_path@,
            archive_path: self.archive_path@,
            header: self.header@,
            held: outcome_view(self.held),
            outcome: outcome_view(self.outcome),
        }
    }
}

impl ArchiveWriter {
    /// A writer whose session is being allocated: the first request is
    /// `NewSession`. Neither format nor filter is set. Construction has
    /// succeeded when the outcome is `Ok`.
    pub fn new() -> (writer: ArchiveWriter)
        ensures
            writer@ == WriterModel::initial(),
            writer@.wf(),
    {
        let writer = ArchiveWriter {
            phase: WriterPhase::Allocating,
            file_format: UNSET,
            file_filter: UNSET,
            script: Vec::new(),
            local_path: String::new(),
            archive_path: String::new(),
            header: EntryHeader::blank(),
            held: None,
            outcome: None,
        };
        assert(writer@.script =~= Seq::empty());
        writer
    }

    /// The request that awaits its reply, if any.
    pub fn pending(&self) -> (request: Option<WriteRequest>)
        ensures
            request_view(request) == self@.pending(),
    {
        match self.phase {
            WriterPhase::Idle(_) => None,
            WriterPhase::Allocating => Some(WriteRequest::NewSession),
            WriterPhase::Preparing(h) => Some(WriteRequest::SetBytesInLastBlock(h, 1)),
            WriterPhase::Applying(h) => if self.script.len() > 0 {
                Some(WriteRequest::Apply(h, self.script[0].clone()))
            } else {
                None
            },
            WriterPhase::Opening(h) => Some(WriteRequest::Open(h)),
            WriterPhase::Locating(_) => Some(WriteRequest::OpenFile(self.local_path.clone())),
            WriterPhase::Heading(h) => Some(WriteRequest::WriteHeader(h, self.header.clone())),
            WriterPhase::Fetching(_) => Some(WriteRequest::ReadChunk(BUFFER_SIZE)),
            WriterPhase::Storing(h, n) => Some(WriteRequest::WriteData(h, n)),
            WriterPhase::Finishing(_) => Some(WriteRequest::FreeEntry),
            WriterPhase::Closing(h) => Some(WriteRequest::Free(h)),
        }
    }

    /// The result of the operation that ended last. It can be taken once.
    pub fn take_outcome(&mut self) -> (outcome: Option<Result<(), Error>>)
        ensures
            outcome_view(outcome) == old(self)@.outcome,
            final(self)@ == (WriterModel { outcome: None, ..old(self)@ }),
            old(self)@.wf() ==> final(self)@.wf(),
    {
        self.outcome.take()
    }

    /// The format that was set, negative while none was.
    pub fn file_format(&self) -> (format: c_int)
        ensures
            format == self@.file_format,
    {
        self.file_format
    }

    /// The filter that was set, negative while none was.
    pub fn file_filter(&self) -> (filter: c_int)
        ensures
            filter == self@.file_filter,
    {
        self.file_filter
    }

    fn finish(&mut self, session: Option<usize>, result: Result<(), Error>)
        ensures
            final(self)@ == old(self)@.finish(session, result_view(result)),
    {
        self.phase = WriterPhase::Idle(session);
        self.outcome = Some(result);
    }

    fn release_entry(&mut self, h: usize, result: Result<(), Error>)
        ensures
            final(self)@ == old(self)@.release_entry(h, result_view(result)),
    {
        self.phase = WriterPhase::Finishing(h);
        self.held = Some(result);
    }

    /// Applies the settings of `plan` in their order.
    fn configure(&mut self, plan: Vec<Setting>)
        ensures
            final(self)@ == old(self)@.configure(setting_views(plan@)),
    {
        match self.phase {
            WriterPhase::Idle(Some(h)) => {
                if plan.len() == 0 {
                    self.finish(Some(h), Ok(()));
                } else {
                    self.phase = WriterPhase::Applying(h);
                    self.script = plan;
                    self.outcome = None;
                }
            },
            WriterPhase::Idle(None) => {
                self.finish(None, Err(Error::NullArchive));
            },
            _ => {},
        }
    }

    /// Sets the output format, by its engine constant. The format counts
    /// as set once the engine has accepted it.
    pub fn set_output_format(&mut self, format: c_int)
        ensures
            final(self)@ == old(self)@.configure(seq![SettingView::Format(format)]),
            old(self)@.wf() ==> final(self)@.wf(),
    {
        let mut plan: Vec<Setting> = Vec::new();
        plan.push(Setting::Format(format));
        assert(setting_views(plan@) =~= seq![SettingView::Format(format)]);
        self.configure(plan);
    }

    /// Sets the output filter, by its engine constant. The filter counts
    /// as set once the engine has accepted it.
    pub fn set_output_filter(&mut self, filter: c_int)
        ensures
            final(self)@ == old(self)@.configure(seq![SettingView::Filter(filter)]),
            old(self)@.wf() ==> final(self)@.wf(),
    {
        let mut plan: Vec<Setting> = Vec::new();
        plan.push(Setting::Filter(filter));
        assert(setting_views(plan@) =~= seq![SettingView::Filter(filter)]);
        self.configure(plan);
    }

    /// Sets a named option of the filter.
    pub fn add_filter_option(&mut self, name: &str, value: &str)
        ensures
            final(self)@ == old(self)@.configure(seq![SettingView::FilterOption(name@, value@)]),
            old(self)@.wf() ==> final(self)@.wf(),
    {
        let mut plan: Vec<Setting> = Vec::new();
        plan.push(Setting::FilterOption(String::from_str(name), String::from_str(value)));
        assert(setting_views(plan@) =~= seq![SettingView::FilterOption(name@, value@)]);
        self.configure(plan);
    }

    /// Sets a named option of the format.
    pub fn add_format_option(&mut self, name: &str, value: &str)
        ensures
            final(self)@ == old(self)@.configure(seq![SettingView::FormatOption(name@, value@)]),
            old(self)@.wf() ==> final(self)@.wf(),
    {
        let mut plan: Vec<Setting> = Vec::new();
        plan.push(Setting::FormatOption(String::from_str(name), String::from_str(value)));
        assert(setting_views(plan@) =~= seq![SettingView::FormatOption(name@, value@)]);
        self.configure(plan);
    }

    /// Opens the session on the bridge. Fails with
    /// `IncompleteInitialization`, and asks nothing of the engine, unless
    /// both a format and a filter have been set.
    pub fn open(&mut self)
        ensures
            final(self)@ == old(self)@.open(),
            old(self)@.wf() ==> final(self)@.wf(),
    {
        match self.phase {
            WriterPhase::Idle(session) => {
                if self.file_format < 0 || self.file_filter < 0 {
                    self.finish(session, Err(Error::IncompleteInitialization));
                } else {
                    match session {
                        Some(h) => {
                            self.phase = WriterPhase::Opening(h);
                            self.outcome = None;
                        },
                        None => {
                            self.finish(None, Err(Error::NullArchive));
                        },
                    }
                }
            },
            _ => {},
        }
    }

    /// Frees the session. Whoever drops a writer may ignore the outcome.
    pub fn free(&mut self)
        ensures
            final(self)@ == old(self)@.free(),
            old(self)@.wf() ==> final(self)@.wf(),
    {
        match self.phase {
            WriterPhase::Idle(Some(h)) => {
                self.phase = WriterPhase::Closing(h);
                self.held = None;
                self.outcome = None;
            },
            WriterPhase::Idle(None) => {
                self.finish(None, Err(Error::NullArchive));
            },
            _ => {},
        }
    }

    /// Sets the highest compression level that the filter and the format
    /// have. A filter or format without levels is passed over.
    pub fn set_compression_high(&mut self)
        ensures
            final(self)@ == old(self)@.configure(
                compression_plan(Preset::High, old(self)@.file_filter, old(self)@.file_format),
            ),
            old(self)@.wf() ==> final(self)@.wf(),
    {
        let plan = preset_plan(Preset::High, self.file_filter, self.file_format);
        self.configure(plan);
    }

    /// Sets half the highest compression level, rounded down. A filter or
    /// format without levels is passed over.
    pub fn set_compression_mid(&mut self)
        ensures
            final(self)@ == old(self)@.configure(
                compression_plan(Preset::Mid, old(self)@.file_filter, old(self)@.file_format),
            ),
            old(self)@.wf() ==> final(self)@.wf(),
    {
        let plan = preset_plan(Preset::Mid, self.file_filter, self.file_format);
        self.configure(plan);
    }

    /// Sets compression level 0, on the format first. A filter or format
    /// without levels is passed over.
    pub fn set_compression_low(&mut self)
        ensures
            final(self)@ == old(self)@.configure(
                compression_plan(Preset::Low, old(self)@.file_filter, old(self)@.file_format),
            ),
            old(self)@.wf() ==> final(self)@.wf(),
    {
        let plan = preset_plan(Preset::Low, self.file_filter, self.file_format);
        self.configure(plan);
    }

    /// Sets the output format and then the output filter, each by its
    /// kind.
    pub fn set_output(&mut self, format: Format, filter: Filter)
        ensures
            final(self)@ == old(self)@.configure(bundle(format.raw(), filter.raw())),
            old(self)@.wf() ==> final(self)@.wf(),
    {
        let mut plan: Vec<Setting> = Vec::new();
        plan.push(Setting::Format(format.code()));
        plan.push(Setting::Filter(filter.code()));
        assert(setting_views(plan@) =~= bundle(format.raw(), filter.raw()));
        self.configure(plan);
    }

    fn set_output_with_method(&mut self, format: Format, method: &str)
        ensures
            final(self)@ == old(self)@.configure(bundle_with_method(format.raw(), method@)),
    {
        let mut plan: Vec<Setting> = Vec::new();
        plan.push(Setting::Format(format.code()));
        plan.push(Setting::Filter(Filter::NoFilter.code()));
        plan.push(
            Setting::FormatOption(String::from_str("compression"), String::from_str(method)),
        );
        assert(setting_views(plan@) =~= bundle_with_method(format.raw(), method@));
        self.configure(plan);
    }

    /// Tar, compressed with gzip.
    pub fn set_output_targz(&mut self)
        ensures
            final(self)@ == old(self)@.configure(bundle(ARCHIVE_FORMAT_TAR, ARCHIVE_FILTER_GZIP)),
            old(self)@.wf() ==> final(self)@.wf(),
    {
        self.set_output(Format::Tar, Filter::Gzip);
    }

    /// Tar, compressed with xz.
    pub fn set_output_tarxz(&mut self)
        ensures
            final(self)@ == old(self)@.configure(bundle(ARCHIVE_FORMAT_TAR, ARCHIVE_FILTER_XZ)),
            old(self)@.wf() ==> final(self)@.wf(),
    {
        self.set_output(Format::Tar, Filter::Xz);
    }

    /// Tar, compressed with zstd.
    pub fn set_output_tarzst(&mut self)
        ensures
            final(self)@ == old(self)@.configure(bundle(ARCHIVE_FORMAT_TAR, ARCHIVE_FILTER_ZSTD)),
            old(self)@.wf() ==> final(self)@.wf(),
    {
        self.set_output(Format::Tar, Filter::Zstd);
    }

    /// 7-Zip, with no filter and LZMA2 as its compression method.
    pub fn set_output_7zlzma2(&mut self)
        ensures
            final(self)@ == old(self)@.configure(
                bundle_with_method(ARCHIVE_FORMAT_7ZIP, "lzma2"@),
            ),
            old(self)@.wf() ==> final(self)@.wf(),
    {
        self.set_output_with_method(Format::SevenZip, "lzma2");
    }

    /// Zip, with no filter and deflate as its compression method.
    pub fn set_output_zip(&mut self)
        ensures
            final(self)@ == old(self)@.configure(
                bundle_with_method(ARCHIVE_FORMAT_ZIP, "deflate"@),
            ),
            old(self)@.wf() ==> final(self)@.wf(),
    {
        self.set_output_with_method(Format::Zip, "deflate");
    }

    /// Adds one entry: a file with the attributes `objmeta`, stored under
    /// `archivepath`. Its header is written first; then the payload is read
    /// from the source chunk by chunk and written, until the source gives
    /// no more; a chunk that the engine does not take whole is a failure.
    /// The entry is released before the result is reported, also after a
    /// failure.
    pub fn add_obj_from_reader(&mut self, archivepath: &str, objmeta: &Metadata)
        ensures
            final(self)@ == old(self)@.add_entry(entry_header(archivepath@, objmeta@)),
            old(self)@.wf() ==> final(self)@.wf(),
    {
        match self.phase {
            WriterPhase::Idle(Some(h)) => {
                self.phase = WriterPhase::Heading(h);
                self.header = EntryHeader::new(archivepath, objmeta);
                self.outcome = None;
            },
            WriterPhase::Idle(None) => {
                self.finish(None, Err(Error::NullArchive));
            },
            _ => {},
        }
    }

    /// Adds the local file `localpath` under the path `archivepath`: the
    /// file is opened, its attributes are read, and it is added as an
    /// entry with the file as the payload source.
    pub fn add_file(&mut self, localpath: &str, archivepath: &str)
        ensures
            final(self)@ == old(self)@.add_file(localpath@, archivepath@),
            old(self)@.wf() ==> final(self)@.wf(),
    {
        match self.phase {
            WriterPhase::Idle(Some(h)) => {
                self.phase = WriterPhase::Locating(h);
                self.local_path = String::from_str(localpath);
                self.archive_path = String::from_str(archivepath);
                self.outcome = None;
            },
            WriterPhase::Idle(None) => {
                self.finish(None, Err(Error::NullArchive));
            },
            _ => {},
        }
    }

    fn on_session(&mut self, h: usize)
        ensures
            final(self)@ == old(self)@.after_session(h),
    {
        if h == 0 {
            self.finish(None, Err(Error::NullArchive));
        } else {
            self.phase = WriterPhase::Preparing(h);
        }
    }

    fn on_prepared(&mut self, h: usize, code: c_int, diag: Diagnostic)
        ensures
            final(self)@ == old(self)@.after_prepare(h, code, diag),
    {
        if is_success(code) {
            self.finish(Some(h), Ok(()));
        } else {
            self.phase = WriterPhase::Closing(h);
            self.held = Some(Err(Error::from_diagnostic(diag)));
        }
    }

    fn on_applied(&mut self, h: usize, code: c_int, diag: Diagnostic)
        ensures
            final(self)@ == old(self)@.after_apply(h, code, diag),
    {
        if self.script.len() == 0 {
            return ;
        }
        if !is_success(code) {
            self.script = Vec::new();
            assert(self@.script =~= Seq::empty());
            self.finish(Some(h), Err(Error::from_diagnostic(diag)));
            return ;
        }
        let applied = self.script.remove(0);
        assert(self@.script =~= old(self)@.script.remove(0));
        match applied {
            Setting::Format(format) => {
                self.file_format = format;
            },
            Setting::Filter(filter) => {
                self.file_filter = filter;
            },
            _ => {},
        }
        if self.script.len() == 0 {
            self.finish(Some(h), Ok(()));
        }
    }

    fn on_opened(&mut self, h: usize, code: c_int, diag: Diagnostic)
        ensures
            final(self)@ == old(self)@.after_open(h, code, diag),
    {
        let result = crate::error::translate(code, diag);
        self.finish(Some(h), result);
    }

    fn on_located(&mut self, h: usize, r: Result<FileAttributes, StreamFailure>)
        ensures
            final(self)@ == old(self)@.after_locate(h, r),
    {
        match r {
            Ok(attrs) => {
                let meta = Metadata::from_filesystem_metadata(attrs);
                self.header = EntryHeader::new(self.archive_path.as_str(), &meta);
                self.phase = WriterPhase::Heading(h);
            },
            Err(failure) => {
                self.finish(Some(h), Err(Error::from_stream(failure)));
            },
        }
    }

    fn on_header(&mut self, h: usize, code: c_int, diag: Diagnostic)
        ensures
            final(self)@ == old(self)@.after_header(h, code, diag),
    {
        if is_success(code) {
            self.phase = WriterPhase::Fetching(h);
        } else {
            self.release_entry(h, Err(Error::from_diagnostic(diag)));
        }
    }

    fn on_chunk(&mut self, h: usize, r: Result<usize, StreamFailure>)
        ensures
            final(self)@ == old(self)@.after_chunk(h, r),
    {
        match r {
            Ok(readed) => {
                if readed == 0 {
                    self.release_entry(h, Ok(()));
                } else {
                    self.phase = WriterPhase::Storing(h, readed);
                }
            },
            Err(failure) => {
                self.release_entry(h, Err(Error::from_stream(failure)));
            },
        }
    }

    fn on_written(&mut self, h: usize, n: usize, count: isize, diag: Diagnostic)
        ensures
            final(self)@ == old(self)@.after_written(h, n, count, diag),
    {
        if count >= 0 && count as usize == n {
            self.phase = WriterPhase::Fetching(h);
        } else {
            self.release_entry(h, Err(Error::from_diagnostic(diag)));
        }
    }

    fn on_entry_freed(&mut self, h: usize)
        ensures
            final(self)@ == old(self)@.after_entry_freed(h),
    {
        let held = self.held.take();
        let result = match held {
            Some(r) => r,
            None => Ok(()),
        };
        self.finish(Some(h), result);
    }

    fn on_closed(&mut self, code: c_int, diag: Diagnostic)
        ensures
            final(self)@ == old(self)@.after_close(code, diag),
    {
        let held = self.held.take();
        let result = match held {
            Some(r) => r,
            None => crate::error::translate(code, diag),
        };
        self.finish(None, result);
    }

    /// Takes the reply to the pending request and moves on. A reply that
    /// does not answer the pending request is dropped.
    pub fn advance(&mut self, reply: WriteReply)
        ensures
            final(self)@ == old(self)@.advance(reply),
            old(self)@.wf() ==> final(self)@.wf(),
    {
        let phase = self.phase;
        match (phase, reply) {
            (WriterPhase::Allocating, WriteReply::Session(h)) => self.on_session(h),
            (WriterPhase::Preparing(h), WriteReply::Status(code, diag)) => {
                self.on_prepared(h, code, diag)
            },
            (WriterPhase::Applying(h), WriteReply::Status(code, diag)) => {
                self.on_applied(h, code, diag)
            },
            (WriterPhase::Opening(h), WriteReply::Status(code, diag)) => {
                self.on_opened(h, code, diag)
            },
            (WriterPhase::Locating(h), WriteReply::File(r)) => self.on_located(h, r),
            (WriterPhase::Heading(h), WriteReply::Status(code, diag)) => {
                self.on_header(h, code, diag)
            },
            (WriterPhase::Fetching(h), WriteReply::Chunk(r)) => self.on_chunk(h, r),
            (WriterPhase::Storing(h, n), WriteReply::Written(count, diag)) => {
                self.on_written(h, n, count, diag)
            },
            (WriterPhase::Finishing(h), WriteReply::EntryFreed) => self.on_entry_freed(h),
            (WriterPhase::Closing(_), WriteReply::Status(code, diag)) => {
                self.on_closed(code, diag)
            },
            _ => {},
        }
    }
}

} // verus!
