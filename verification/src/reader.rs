//! The read side: the life of one read session, as a state machine.
//!
//! An [`ArchiveReader`] never calls the engine. It names the request that is
//! due ([`ArchiveReader::pending`]), takes the reply
//! ([`ArchiveReader::advance`]) and decides what follows. When no request is
//! due, the operation has ended and its result waits in
//! [`ArchiveReader::take_outcome`].

use crate::carchive::{
    is_success, status_ok, Diagnostic, EntryRecord, StreamFailure, ARCHIVE_EOF,
};
use crate::error::{diagnosed, stream_error, translated, Error, ErrorView, IoError, IoErrorView};
use crate::metadata::{entry_metadata, entry_path, Metadata, MetadataView};
use crate::text::{not_found_message, not_found_text};
use libc::c_int;
use vstd::prelude::*;

verus! {

/// What a session is being set up for.
#[derive(Clone, Copy, Debug, PartialEq, Eq, Structural)]
pub enum Goal {
    /// The reader is being constructed.
    Construct,
    /// The session is rebuilt to look for a named entry from the start.
    Reseek,
}

/// The four calls that make a fresh session ready, in their order.
#[derive(Clone, Copy, Debug, PartialEq, Eq, Structural)]
pub enum SetupStage {
    Filters,
    Formats,
    SeekCallback,
    Open,
}

/// Where the reader stands. Every phase but `Idle` awaits one reply. A phase
/// that owns a session carries its handle.
#[derive(Clone, Copy, Debug, PartialEq, Eq, Structural)]
pub enum ReaderPhase {
    /// Nothing is due. The session, if there is one, is ready for use.
    Idle(Option<usize>),
    /// A new session was asked for.
    Allocating(Goal),
    /// One of the setup calls was made on the new session.
    Configuring(usize, Goal, SetupStage),
    /// Enumerating: the next header was asked for.
    Listing(usize),
    /// Enumerating: the entry under the cursor is being read out.
    Collecting(usize),
    /// Seeking: the stream is being rewound to its start.
    Rewinding(usize),
    /// Seeking: the old session is being freed.
    Releasing(usize),
    /// Seeking: the next header was asked for.
    Scanning(usize),
    /// Seeking: the entry under the cursor is being read out.
    Comparing(usize),
    /// Payload bytes were asked for: handle, and room in the caller's buffer.
    Reading(usize, usize),
    /// The session is being freed for good.
    Closing(usize),
}

/// A request to the engine, or to the wrapped stream.
#[derive(Clone, Copy, Debug, PartialEq, Eq, Structural)]
pub enum ReadRequest {
    /// Allocate a read session. Answered by `Session`.
    NewSession,
    /// Enable every filter. Answered by `Status`.
    SupportFilterAll(usize),
    /// Enable every format. Answered by `Status`.
    SupportFormatAll(usize),
    /// Install the seek callback. Answered by `Status`.
    SetSeekCallback(usize),
    /// Open the session on the bridge, with the pull callback. Answered by `Status`.
    Open(usize),
    /// Advance to the next entry header. Answered by `Status`.
    NextHeader(usize),
    /// Read out the entry that the last header produced. Answered by `Entry`.
    ReadEntry(usize),
    /// Read payload of the current entry, at most so many bytes. Answered by `Data`.
    ReadData(usize, usize),
    /// Free the session. Answered by `Status`.
    Free(usize),
    /// Seek the wrapped stream to its start. Answered by `Rewound`.
    Rewind,
}

/// A reply to a [`ReadRequest`].
#[derive(Debug, PartialEq, Eq)]
pub enum ReadReply {
    /// The handle of the new session; 0 is the null handle.
    Session(usize),
    /// The status of an engine call, and the diagnostic state after it.
    Status(c_int, Diagnostic),
    /// The entry under the cursor.
    Entry(EntryRecord),
    /// What the stream's seek returned.
    Rewound(Result<u64, StreamFailure>),
    /// The count that the payload read returned, and the diagnostic state after it.
    Data(isize, Diagnostic),
}

/// What an operation that succeeded hands back.
#[derive(Debug, PartialEq, Eq)]
pub enum ReadOutput {
    Done,
    /// The entries of the archive, in header order.
    Files(Vec<Metadata>),
    /// The number of payload bytes produced; 0 at the end of the entry.
    Bytes(usize),
}

pub ghost enum ReadOutputView {
    Done,
    Files(Seq<MetadataView>),
    Bytes(usize),
}

pub open spec fn views(records: Seq<Metadata>) -> Seq<MetadataView> {
    records.map_values(|m: Metadata| m@)
}

impl View for ReadOutput {
    type V = ReadOutputView;

    open spec fn view(&self) -> ReadOutputView {
        match *self {
            ReadOutput::Done => ReadOutputView::Done,
            ReadOutput::Files(records) => ReadOutputView::Files(views(records@)),
            ReadOutput::Bytes(n) => ReadOutputView::Bytes(n),
        }
    }
}

pub type ReadResult = Result<ReadOutputView, ErrorView>;

pub open spec fn result_view(r: Result<ReadOutput, Error>) -> ReadResult {
    match r {
        Ok(output) => Ok(output@),
        Err(e) => Err(e@),
    }
}

pub open spec fn outcome_view(o: Option<Result<ReadOutput, Error>>) -> Option<ReadResult> {
    match o {
        Some(r) => Some(result_view(r)),
        None => None,
    }
}

/// The reader as a mathematical value.
pub ghost struct ReaderModel {
    pub phase: ReaderPhase,
    /// The entry that the last successful seek stopped at.
    pub current_entry: Option<MetadataView>,
    /// The path that a seek looks for.
    pub target: Seq<char>,
    /// The entries that an enumeration has collected.
    pub listing: Seq<MetadataView>,
    /// The result that is reported once the session has been freed.
    pub held: Option<ReadResult>,
    /// The result of the operation that ended last, until it is taken.
    pub outcome: Option<ReadResult>,
}

impl ReaderModel {
    /// A reader that has just asked for its session.
    pub open spec fn initial() -> ReaderModel {
        ReaderModel {
            phase: ReaderPhase::Allocating(Goal::Construct),
            current_entry: None,
            target: Seq::empty(),
            listing: Seq::empty(),
            held: None,
            outcome: None,
        }
    }

    /// The handle of the session that the reader owns.
    pub open spec fn session(self) -> Option<usize> {
        match self.phase {
            ReaderPhase::Idle(session) => session,
            ReaderPhase::Allocating(_) => None,
            ReaderPhase::Configuring(h, _, _) => Some(h),
            ReaderPhase::Listing(h) => Some(h),
            ReaderPhase::Collecting(h) => Some(h),
            ReaderPhase::Rewinding(h) => Some(h),
            ReaderPhase::Releasing(h) => Some(h),
            ReaderPhase::Scanning(h) => Some(h),
            ReaderPhase::Comparing(h) => Some(h),
            ReaderPhase::Reading(h, _) => Some(h),
            ReaderPhase::Closing(h) => Some(h),
        }
    }

    /// What holds of every reader: a session handle in the state is never
    /// the null handle; a result is held back only while the session is
    /// being freed; and entries are on the list only during an enumeration.
    pub open spec fn wf(self) -> bool {
        &&& self.session() != Some(0usize)
        &&& self.held is Some ==> self.phase is Closing
        &&& self.listing.len() > 0 ==> self.phase is Listing || self.phase is Collecting
    }

    /// The request that awaits its reply.
    pub open spec fn pending(self) -> Option<ReadRequest> {
        match self.phase {
            ReaderPhase::Idle(_) => None,
            ReaderPhase::Allocating(_) => Some(ReadRequest::NewSession),
            ReaderPhase::Configuring(h, _, stage) => Some(
                match stage {
                    SetupStage::Filters => ReadRequest::SupportFilterAll(h),
                    SetupStage::Formats => ReadRequest::SupportFormatAll(h),
                    SetupStage::SeekCallback => ReadRequest::SetSeekCallback(h),
                    SetupStage::Open => ReadRequest::Open(h),
                },
            ),
            ReaderPhase::Listing(h) => Some(ReadRequest::NextHeader(h)),
            ReaderPhase::Collecting(h) => Some(ReadRequest::ReadEntry(h)),
            ReaderPhase::Rewinding(_) => Some(ReadRequest::Rewind),
            ReaderPhase::Releasing(h) => Some(ReadRequest::Free(h)),
            ReaderPhase::Scanning(h) => Some(ReadRequest::NextHeader(h)),
            ReaderPhase::Comparing(h) => Some(ReadRequest::ReadEntry(h)),
            ReaderPhase::Reading(h, room) => Some(ReadRequest::ReadData(h, room)),
            ReaderPhase::Closing(h) => Some(ReadRequest::Free(h)),
        }
    }

    /// The operation ends: nothing is due, and `result` waits to be taken.
    pub open spec fn finish(self, session: Option<usize>, result: ReadResult) -> ReaderModel {
        ReaderModel { phase: ReaderPhase::Idle(session), outcome: Some(result), ..self }
    }

    /// The session is freed next, and `result` is reported after that.
    pub open spec fn close_with(self, h: usize, result: ReadResult) -> ReaderModel {
        ReaderModel {
            phase: ReaderPhase::Closing(h),
            listing: Seq::empty(),
            held: Some(result),
            ..self
        }
    }

    /// After the engine has answered the request for a session. A null
    /// handle is fatal; any other handle is set up step by step.
    pub open spec fn after_session(self, goal: Goal, h: usize) -> ReaderModel {
        if h == 0 {
            self.finish(None, Err(ErrorView::NullArchive))
        } else {
            ReaderModel { phase: ReaderPhase::Configuring(h, goal, SetupStage::Filters), ..self }
        }
    }

    /// After a setup call has returned. A failure ends the setup: the
    /// session is freed and the error reported. A success leads to the next
    /// call, and after the last one to what the session was set up for.
    pub open spec fn after_setup(
        self,
        h: usize,
        goal: Goal,
        stage: SetupStage,
        code: c_int,
        diag: Diagnostic,
    ) -> ReaderModel {
        if !status_ok(code) {
            self.close_with(h, Err(diagnosed(diag)))
        } else {
            match stage {
                SetupStage::Filters => ReaderModel {
                    phase: ReaderPhase::Configuring(h, goal, SetupStage::Formats),
                    ..self
                },
                SetupStage::Formats => ReaderModel {
                    phase: ReaderPhase::Configuring(h, goal, SetupStage::SeekCallback),
                    ..self
                },
                SetupStage::SeekCallback => ReaderModel {
                    phase: ReaderPhase::Configuring(h, goal, SetupStage::Open),
                    ..self
                },
                SetupStage::Open => match goal {
                    Goal::Construct => self.finish(Some(h), Ok(ReadOutputView::Done)),
                    Goal::Reseek => ReaderModel { phase: ReaderPhase::Scanning(h), ..self },
                },
            }
        }
    }

    /// Enumerating, after the engine has advanced to a header. The end of
    /// the archive completes the list; a failure discards it. Either way
    /// the session is freed before the result is reported.
    pub open spec fn after_list_header(self, h: usize, code: c_int, diag: Diagnostic) -> ReaderModel {
        if code == ARCHIVE_EOF {
            self.close_with(h, Ok(ReadOutputView::Files(self.listing)))
        } else if status_ok(code) {
            ReaderModel { phase: ReaderPhase::Collecting(h), ..self }
        } else {
            self.close_with(h, Err(diagnosed(diag)))
        }
    }

    /// Enumerating, after the entry has been read out: it joins the list.
    pub open spec fn after_list_entry(self, h: usize, entry: EntryRecord) -> ReaderModel {
        ReaderModel {
            phase: ReaderPhase::Listing(h),
            listing: self.listing.push(entry_metadata(entry)),
            ..self
        }
    }

    /// Seeking, after the stream has been asked to rewind.
    pub open spec fn after_rewind(self, h: usize, r: Result<u64, StreamFailure>) -> ReaderModel {
        match r {
            Ok(_) => ReaderModel { phase: ReaderPhase::Releasing(h), ..self },
            Err(failure) => self.finish(Some(h), Err(ErrorView::IO(stream_error(failure)))),
        }
    }

    /// Seeking, after the old session has been freed. It is gone whatever
    /// the status says; only after a clean free is a new one asked for.
    pub open spec fn after_release(self, code: c_int, diag: Diagnostic) -> ReaderModel {
        if status_ok(code) {
            ReaderModel { phase: ReaderPhase::Allocating(Goal::Reseek), ..self }
        } else {
            self.finish(None, Err(diagnosed(diag)))
        }
    }

    /// Seeking, after the engine has advanced to a header.
    pub open spec fn after_scan_header(self, h: usize, code: c_int, diag: Diagnostic) -> ReaderModel {
        if code == ARCHIVE_EOF {
            self.finish(
                Some(h),
                Err(ErrorView::IO(IoErrorView::NotFound(not_found_message(self.target)))),
            )
        } else if status_ok(code) {
            ReaderModel { phase: ReaderPhase::Comparing(h), ..self }
        } else {
            self.finish(Some(h), Err(diagnosed(diag)))
        }
    }

    /// Seeking, after the entry has been read out. On a match the seek ends
    /// with the cursor on this entry's payload; else the scan goes on.
    pub open spec fn after_scan_entry(self, h: usize, entry: EntryRecord) -> ReaderModel {
        if entry_path(entry) == self.target {
            ReaderModel { current_entry: Some(entry_metadata(entry)), ..self }.finish(
                Some(h),
                Ok(ReadOutputView::Done),
            )
        } else {
            ReaderModel { phase: ReaderPhase::Scanning(h), ..self }
        }
    }

    /// After a payload read has returned. A negative count is a failure.
    pub open spec fn after_data(self, h: usize, n: isize, diag: Diagnostic) -> ReaderModel {
        if n < 0 {
            self.finish(Some(h), Err(diagnosed(diag)))
        } else {
            self.finish(Some(h), Ok(ReadOutputView::Bytes(n as usize)))
        }
    }

    /// After the session has been freed for good. A held result is
    /// reported and the status of the free is dropped; with no held result
    /// the status of the free is the result.
    pub open spec fn after_close(self, code: c_int, diag: Diagnostic) -> ReaderModel {
        let result = match self.held {
            Some(r) => r,
            None => match translated(code, diag) {
                Ok(_) => Ok(ReadOutputView::Done),
                Err(e) => Err(e),
            },
        };
        ReaderModel { held: None, ..self }.finish(None, result)
    }

    /// The reader after a reply. A reply that does not answer the pending
    /// request changes nothing.
    pub open spec fn advance(self, reply: ReadReply) -> ReaderModel {
        match (self.phase, reply) {
            (ReaderPhase::Allocating(goal), ReadReply::Session(h)) => self.after_session(goal, h),
            (ReaderPhase::Configuring(h, goal, stage), ReadReply::Status(code, diag)) => {
                self.after_setup(h, goal, stage, code, diag)
            },
            (ReaderPhase::Listing(h), ReadReply::Status(code, diag)) => {
                self.after_list_header(h, code, diag)
            },
            (ReaderPhase::Collecting(h), ReadReply::Entry(entry)) => self.after_list_entry(h, entry),
            (ReaderPhase::Rewinding(h), ReadReply::Rewound(r)) => self.after_rewind(h, r),
            (ReaderPhase::Releasing(_), ReadReply::Status(code, diag)) => {
                self.after_release(code, diag)
            },
            (ReaderPhase::Scanning(h), ReadReply::Status(code, diag)) => {
                self.after_scan_header(h, code, diag)
            },
            (ReaderPhase::Comparing(h), ReadReply::Entry(entry)) => self.after_scan_entry(h, entry),
            (ReaderPhase::Reading(h, _), ReadReply::Data(n, diag)) => self.after_data(h, n, diag),
            (ReaderPhase::Closing(_), ReadReply::Status(code, diag)) => self.after_close(code, diag),
            _ => self,
        }
    }

    /// The reader after a sequence of replies, taken one after the other.
    pub open spec fn run(self, replies: Seq<ReadReply>) -> ReaderModel
        decreases replies.len(),
    {
        if replies.len() == 0 {
            self
        } else {
            self.advance(replies[0]).run(replies.skip(1))
        }
    }

    /// An operation on a reader that owns no session fails at once.
    pub open spec fn refuse(self) -> ReaderModel {
        self.finish(None, Err(ErrorView::NullArchive))
    }

    /// Enumeration begins. While a request is pending nothing changes.
    pub open spec fn list_files(self) -> ReaderModel {
        match self.phase {
            ReaderPhase::Idle(Some(h)) => ReaderModel {
                phase: ReaderPhase::Listing(h),
                listing: Seq::empty(),
                outcome: None,
                ..self
            },
            ReaderPhase::Idle(None) => self.refuse(),
            _ => self,
        }
    }

    /// A seek to the entry named `name` begins: the cursor that there was
    /// is given up, and the stream is rewound first. While a request is
    /// pending nothing changes.
    pub open spec fn reader_seek_obj(self, name: Seq<char>) -> ReaderModel {
        match self.phase {
            ReaderPhase::Idle(Some(h)) => ReaderModel {
                phase: ReaderPhase::Rewinding(h),
                current_entry: None,
                target: name,
                outcome: None,
                ..self
            },
            ReaderPhase::Idle(None) => self.refuse(),
            _ => self,
        }
    }

    /// A payload read into a buffer with `room` bytes begins.
    pub open spec fn read(self, room: usize) -> ReaderModel {
        match self.phase {
            ReaderPhase::Idle(Some(h)) => ReaderModel {
                phase: ReaderPhase::Reading(h, room),
                outcome: None,
                ..self
            },
            ReaderPhase::Idle(None) => self.refuse(),
            _ => self,
        }
    }

    /// Teardown begins.
    pub open spec fn free(self) -> ReaderModel {
        match self.phase {
            ReaderPhase::Idle(Some(h)) => ReaderModel {
                phase: ReaderPhase::Closing(h),
                held: None,
                outcome: None,
                ..self
            },
            ReaderPhase::Idle(None) => self.refuse(),
            _ => self,
        }
    }
}

/// The read side of the adapter: one read session and what is being done
/// with it.
#[derive(Debug, PartialEq, Eq)]
pub struct ArchiveReader {
    phase: ReaderPhase,
    current_entry: Option<Metadata>,
    target: String,
    listing: Vec<Metadata>,
    held: Option<Result<ReadOutput, Error>>,
    outcome: Option<Result<ReadOutput, Error>>,
}

impl View for ArchiveReader {
    type V = ReaderModel;

    closed spec fn view(&self) -> ReaderModel {
        ReaderModel {
            phase: self.phase,
            current_entry: match self.current_entry {
                Some(m) => Some(m@),
                None => None,
            },
            target: self.target@,
            listing: views(self.listing@),
            held: outcome_view(self.held),
            outcome: outcome_view(self.outcome),
        }
    }
}

impl ArchiveReader {
    /// A reader whose session is being allocated: the first request is
    /// `NewSession`. Construction has succeeded when the outcome is `Done`.
    pub fn new() -> (reader: ArchiveReader)
        ensures
            reader@ == ReaderModel::initial(),
            reader@.wf(),
    {
        let mut reader = ArchiveReader {
            phase: ReaderPhase::Idle(None),
            current_entry: None,
            target: String::new(),
            listing: Vec::new(),
            held: None,
            outcome: None,
        };
        reader.start(Goal::Construct);
        assert(reader@.listing =~= Seq::empty());
        reader
    }

    /// Asks for a fresh session, to be set up for `goal`.
    fn start(&mut self, goal: Goal)
        ensures
            final(self)@ == (ReaderModel { phase: ReaderPhase::Allocating(goal), ..old(self)@ }),
    {
        self.phase = ReaderPhase::Allocating(goal);
    }

    /// The request that awaits its reply, if any.
    pub fn pending(&self) -> (request: Option<ReadRequest>)
        ensures
            request == self@.pending(),
    {
        match self.phase {
            ReaderPhase::Idle(_) => None,
            ReaderPhase::Allocating(_) => Some(ReadRequest::NewSession),
            ReaderPhase::Configuring(h, _, stage) => Some(
                match stage {
                    SetupStage::Filters => ReadRequest::SupportFilterAll(h),
                    SetupStage::Formats => ReadRequest::SupportFormatAll(h),
                    SetupStage::SeekCallback => ReadRequest::SetSeekCallback(h),
                    SetupStage::Open => ReadRequest::Open(h),
                },
            ),
            ReaderPhase::Listing(h) => Some(ReadRequest::NextHeader(h)),
            ReaderPhase::Collecting(h) => Some(ReadRequest::ReadEntry(h)),
            ReaderPhase::Rewinding(_) => Some(ReadRequest::Rewind),
            ReaderPhase::Releasing(h) => Some(ReadRequest::Free(h)),
            ReaderPhase::Scanning(h) => Some(ReadRequest::NextHeader(h)),
            ReaderPhase::Comparing(h) => Some(ReadRequest::ReadEntry(h)),
            ReaderPhase::Reading(h, room) => Some(ReadRequest::ReadData(h, room)),
            ReaderPhase::Closing(h) => Some(ReadRequest::Free(h)),
        }
    }

    /// The handle of the session, or `NullArchive` where the reader owns none.
    pub fn get_archive(&self) -> (r: Result<usize, Error>)
        ensures
            match self@.session() {
                Some(h) => r == Ok::<usize, Error>(h),
                None => r == Err::<usize, Error>(Error::NullArchive),
            },
    {
        let session = match self.phase {
            ReaderPhase::Idle(session) => session,
            ReaderPhase::Allocating(_) => None,
            ReaderPhase::Configuring(h, _, _) => Some(h),
            ReaderPhase::Listing(h) => Some(h),
            ReaderPhase::Collecting(h) => Some(h),
            ReaderPhase::Rewinding(h) => Some(h),
            ReaderPhase::Releasing(h) => Some(h),
            ReaderPhase::Scanning(h) => Some(h),
            ReaderPhase::Comparing(h) => Some(h),
            ReaderPhase::Reading(h, _) => Some(h),
            ReaderPhase::Closing(h) => Some(h),
        };
        if let Some(a) = session {
            Ok(a)
        } else {
            Err(Error::NullArchive)
        }
    }

    /// Reading an archive as a whole needs no preparation.
    pub fn reader_whole_archive(self) -> (r: Result<(), Error>)
        ensures
            r == Ok::<(), Error>(()),
    {
        Ok(())
    }

    /// The entry that the last successful seek stopped at.
    pub fn current_entry(&self) -> (entry: Option<&Metadata>)
        ensures
            match entry {
                Some(m) => self@.current_entry == Some(m@),
                None => self@.current_entry is None,
            },
    {
        self.current_entry.as_ref()
    }

    /// The result of the operation that ended last. It can be taken once.
    pub fn take_outcome(&mut self) -> (outcome: Option<Result<ReadOutput, Error>>)
        ensures
            outcome_view(outcome) == old(self)@.outcome,
            final(self)@ == (ReaderModel { outcome: None, ..old(self)@ }),
            old(self)@.wf() ==> final(self)@.wf(),
    {
        self.outcome.take()
    }

    fn finish(&mut self, session: Option<usize>, result: Result<ReadOutput, Error>)
        ensures
            final(self)@ == old(self)@.finish(session, result_view(result)),
    {
        self.phase = ReaderPhase::Idle(session);
        self.outcome = Some(result);
    }

    fn close_with(&mut self, h: usize, result: Result<ReadOutput, Error>)
        ensures
            final(self)@ == old(self)@.close_with(h, result_view(result)),
    {
        self.phase = ReaderPhase::Closing(h);
        self.listing = Vec::new();
        self.held = Some(result);
        assert(self@.listing =~= Seq::empty());
    }

    /// Enumerates the entries of the archive, from the cursor on. The
    /// reader is used up: when the list is complete, or the engine has
    /// failed, its session is freed.
    pub fn list_files(&mut self)
        ensures
            final(self)@ == old(self)@.list_files(),
            old(self)@.wf() ==> final(self)@.wf(),
    {
        match self.phase {
            ReaderPhase::Idle(Some(h)) => {
                self.phase = ReaderPhase::Listing(h);
                self.listing = Vec::new();
                self.outcome = None;
                assert(self@.listing =~= Seq::empty());
            },
            ReaderPhase::Idle(None) => {
                self.finish(None, Err(Error::NullArchive));
            },
            _ => {},
        }
    }

    /// Positions the cursor on the payload of the entry whose path is
    /// `filename`. The engine cannot go backwards, so the stream is
    /// rewound, the session freed and a fresh one set up, and the headers
    /// are scanned from the first one.
    pub fn reader_seek_obj(&mut self, filename: &str)
        ensures
            final(self)@ == old(self)@.reader_seek_obj(filename@),
            old(self)@.wf() ==> final(self)@.wf(),
    {
        match self.phase {
            ReaderPhase::Idle(Some(h)) => {
                self.phase = ReaderPhase::Rewinding(h);
                self.current_entry = None;
                self.target = String::from_str(filename);
                self.outcome = None;
            },
            ReaderPhase::Idle(None) => {
                self.finish(None, Err(Error::NullArchive));
            },
            _ => {},
        }
    }

    /// Reads payload of the entry under the cursor into a buffer that has
    /// room for `room` bytes.
    pub fn read(&mut self, room: usize)
        ensures
            final(self)@ == old(self)@.read(room),
            old(self)@.wf() ==> final(self)@.wf(),
    {
        match self.phase {
            ReaderPhase::Idle(Some(h)) => {
                self.phase = ReaderPhase::Reading(h, room);
                self.outcome = None;
            },
            ReaderPhase::Idle(None) => {
                self.finish(None, Err(Error::NullArchive));
            },
            _ => {},
        }
    }

    /// Frees the session. Whoever drops a reader may ignore the outcome.
    pub fn free(&mut self)
        ensures
            final(self)@ == old(self)@.free(),
            old(self)@.wf() ==> final(self)@.wf(),
    {
        match self.phase {
            ReaderPhase::Idle(Some(h)) => {
                self.phase = ReaderPhase::Closing(h);
                self.held = None;
                self.outcome = None;
            },
            ReaderPhase::Idle(None) => {
                self.finish(None, Err(Error::NullArchive));
            },
            _ => {},
        }
    }

    fn on_session(&mut self, goal: Goal, h: usize)
        ensures
            final(self)@ == old(self)@.after_session(goal, h),
    {
        if h == 0 {
            self.finish(None, Err(Error::NullArchive));
        } else {
            self.phase = ReaderPhase::Configuring(h, goal, SetupStage::Filters);
        }
    }

    fn on_setup(&mut self, h: usize, goal: Goal, stage: SetupStage, code: c_int, diag: Diagnostic)
        ensures
            final(self)@ == old(self)@.after_setup(h, goal, stage, code, diag),
    {
        if !is_success(code) {
            self.close_with(h, Err(Error::from_diagnostic(diag)));
            return ;
        }
        match stage {
            SetupStage::Filters => {
                self.phase = ReaderPhase::Configuring(h, goal, SetupStage::Formats);
            },
            SetupStage::Formats => {
                self.phase = ReaderPhase::Configuring(h, goal, SetupStage::SeekCallback);
            },
            SetupStage::SeekCallback => {
                self.phase = ReaderPhase::Configuring(h, goal, SetupStage::Open);
            },
            SetupStage::Open => match goal {
                Goal::Construct => {
                    self.finish(Some(h), Ok(ReadOutput::Done));
                },
                Goal::Reseek => {
                    self.phase = ReaderPhase::Scanning(h);
                },
            },
        }
    }

    fn on_list_header(&mut self, h: usize, code: c_int, diag: Diagnostic)
        ensures
            final(self)@ == old(self)@.after_list_header(h, code, diag),
    {
        if code == ARCHIVE_EOF {
            let mut outlist: Vec<Metadata> = Vec::new();
            core::mem::swap(&mut self.listing, &mut outlist);
            self.close_with(h, Ok(ReadOutput::Files(outlist)));
        } else if is_success(code) {
            self.phase = ReaderPhase::Collecting(h);
        } else {
            self.close_with(h, Err(Error::from_diagnostic(diag)));
        }
    }

    fn on_list_entry(&mut self, h: usize, entry: EntryRecord)
        ensures
            final(self)@ == old(self)@.after_list_entry(h, entry),
    {
        let meta = Metadata::from_entry_handle(entry);
        self.listing.push(meta);
        self.phase = ReaderPhase::Listing(h);
        assert(self@.listing =~= old(self)@.listing.push(entry_metadata(entry)));
    }

    fn on_rewound(&mut self, h: usize, r: Result<u64, StreamFailure>)
        ensures
            final(self)@ == old(self)@.after_rewind(h, r),
    {
        match r {
            Ok(_) => {
                self.phase = ReaderPhase::Releasing(h);
            },
            Err(failure) => {
                self.finish(Some(h), Err(Error::from_stream(failure)));
            },
        }
    }

    fn on_released(&mut self, code: c_int, diag: Diagnostic)
        ensures
            final(self)@ == old(self)@.after_release(code, diag),
    {
        if is_success(code) {
            self.start(Goal::Reseek);
        } else {
            self.finish(None, Err(Error::from_diagnostic(diag)));
        }
    }

    fn on_scan_header(&mut self, h: usize, code: c_int, diag: Diagnostic)
        ensures
            final(self)@ == old(self)@.after_scan_header(h, code, diag),
    {
        if code == ARCHIVE_EOF {
            let message = not_found_text(self.target.as_str());
            self.finish(Some(h), Err(Error::IO(IoError::NotFound(message))));
        } else if is_success(code) {
            self.phase = ReaderPhase::Comparing(h);
        } else {
            self.finish(Some(h), Err(Error::from_diagnostic(diag)));
        }
    }

    fn on_scan_entry(&mut self, h: usize, entry: EntryRecord)
        ensures
            final(self)@ == old(self)@.after_scan_entry(h, entry),
    {
        let meta = Metadata::from_entry_handle(entry);
        let path = String::from_str(meta.filepath());
        if path == self.target {
            self.current_entry = Some(meta);
            self.finish(Some(h), Ok(ReadOutput::Done));
        } else {
            self.phase = ReaderPhase::Scanning(h);
        }
    }

    fn on_data(&mut self, h: usize, n: isize, diag: Diagnostic)
        ensures
            final(self)@ == old(self)@.after_data(h, n, diag),
    {
        if n < 0 {
            self.finish(Some(h), Err(Error::from_diagnostic(diag)));
        } else {
            self.finish(Some(h), Ok(ReadOutput::Bytes(n as usize)));
        }
    }

    fn on_closed(&mut self, code: c_int, diag: Diagnostic)
        ensures
            final(self)@ == old(self)@.after_close(code, diag),
    {
        let held = self.held.take();
        let result = match held {
            Some(r) => r,
            None => {
                if is_success(code) {
                    Ok(ReadOutput::Done)
                } else {
                    Err(Error::from_diagnostic(diag))
                }
            },
        };
        self.finish(None, result);
    }

    /// Takes the reply to the pending request and moves on. A reply that
    /// does not answer the pending request is dropped.
    pub fn advance(&mut self, reply: ReadReply)
        ensures
            final(self)@ == old(self)@.advance(reply),
            old(self)@.wf() ==> final(self)@.wf(),
    {
        let phase = self.phase;
        match (phase, reply) {
            (ReaderPhase::Allocating(goal), ReadReply::Session(h)) => self.on_session(goal, h),
            (ReaderPhase::Configuring(h, goal, stage), ReadReply::Status(code, diag)) => {
                self.on_setup(h, goal, stage, code, diag)
            },
            (ReaderPhase::Listing(h), ReadReply::Status(code, diag)) => {
                self.on_list_header(h, code, diag)
            },
            (ReaderPhase::Collecting(h), ReadReply::Entry(entry)) => self.on_list_entry(h, entry),
            (ReaderPhase::Rewinding(h), ReadReply::Rewound(r)) => self.on_rewound(h, r),
            (ReaderPhase::Releasing(_), ReadReply::Status(code, diag)) => {
                self.on_released(code, diag)
            },
            (ReaderPhase::Scanning(h), ReadReply::Status(code, diag)) => {
                self.on_scan_header(h, code, diag)
            },
            (ReaderPhase::Comparing(h), ReadReply::Entry(entry)) => self.on_scan_entry(h, entry),
            (ReaderPhase::Reading(h, _), ReadReply::Data(n, diag)) => self.on_data(h, n, diag),
            (ReaderPhase::Closing(_), ReadReply::Status(code, diag)) => self.on_closed(code, diag),
            _ => {},
        }
    }
}

} // verus!
