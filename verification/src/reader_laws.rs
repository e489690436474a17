//! What holds of every run of the read side.

use crate::carchive::{status_ok, Diagnostic, EntryRecord, ARCHIVE_EOF};
use crate::error::{ErrorView, IoErrorView};
use crate::metadata::{
    entry_metadata, entry_path, lemma_path_is_empty_only_without_a_name, MetadataView,
};
use crate::reader::{
    Goal, ReadOutputView, ReadReply, ReadRequest, ReaderModel, ReaderPhase, SetupStage,
};
use crate::text::not_found_message;
use libc::c_int;
use vstd::prelude::*;
use vstd::utf8::valid_utf8;

verus! {

/// One advance of the cursor that succeeded: the status of the header call,
/// the diagnostic state after it, and the entry that it produced.
pub ghost struct HeaderStep {
    pub code: c_int,
    pub diag: Diagnostic,
    pub entry: EntryRecord,
}

/// The replies of the engine to a run of successful advances.
pub open spec fn header_replies(steps: Seq<HeaderStep>) -> Seq<ReadReply>
    decreases steps.len(),
{
    if steps.len() == 0 {
        Seq::empty()
    } else {
        seq![ReadReply::Status(steps[0].code, steps[0].diag), ReadReply::Entry(steps[0].entry)]
            + header_replies(steps.skip(1))
    }
}

/// The records of the entries that a run of advances produced, in order.
pub open spec fn recorded(steps: Seq<HeaderStep>) -> Seq<MetadataView> {
    steps.map_values(|s: HeaderStep| entry_metadata(s.entry))
}

pub open spec fn all_succeed(steps: Seq<HeaderStep>) -> bool {
    forall|i: int| 0 <= i < steps.len() ==> status_ok(#[trigger] steps[i].code)
}

pub open spec fn none_named(steps: Seq<HeaderStep>, name: Seq<char>) -> bool {
    forall|i: int| 0 <= i < steps.len() ==> entry_path(#[trigger] steps[i].entry) != name
}

/// Taking replies one run after the other is taking them in one run.
pub proof fn lemma_run_split(m: ReaderModel, first: Seq<ReadReply>, rest: Seq<ReadReply>)
    ensures
        m.run(first + rest) == m.run(first).run(rest),
    decreases first.len(),
{
    if first.len() == 0 {
        assert(first + rest =~= rest);
    } else {
        assert((first + rest).skip(1) =~= first.skip(1) + rest);
        lemma_run_split(m.advance(first[0]), first.skip(1), rest);
    }
}

/// A run of two replies.
pub proof fn lemma_run_pair(m: ReaderModel, a: ReadReply, b: ReadReply)
    ensures
        m.run(seq![a, b]) == m.advance(a).advance(b),
{
    let both = seq![a, b];
    assert(both.skip(1) =~= seq![b]);
    assert(both.skip(1).skip(1) =~= Seq::<ReadReply>::empty());
    reveal_with_fuel(ReaderModel::run, 3);
}

/// The state stays well formed, whatever the replies and whatever the
/// operations: the null handle never comes in, a result is held back only
/// while the session is being freed, and the list is empty outside an
/// enumeration.
pub proof fn lemma_reader_stays_well_formed(m: ReaderModel, reply: ReadReply, name: Seq<char>, room: usize)
    requires
        m.wf(),
    ensures
        ReaderModel::initial().wf(),
        m.advance(reply).wf(),
        m.list_files().wf(),
        m.reader_seek_obj(name).wf(),
        m.read(room).wf(),
        m.free().wf(),
{
}

/// A driver is never left without a word. A reader is at rest exactly when
/// no request is pending. An operation begun at rest either asks for
/// something or has its result at once; and the reply that brings a busy
/// reader to rest brings the result of the operation with it.
pub proof fn lemma_every_operation_ends_with_an_outcome(
    m: ReaderModel,
    reply: ReadReply,
    name: Seq<char>,
    room: usize,
)
    ensures
        m.pending() is None <==> m.phase is Idle,
        !(m.phase is Idle) && m.advance(reply).phase is Idle ==> m.advance(reply).outcome is Some,
        m.phase is Idle ==> {
            &&& m.list_files().pending() is Some || m.list_files().outcome is Some
            &&& m.reader_seek_obj(name).pending() is Some || m.reader_seek_obj(name).outcome is Some
            &&& m.read(room).pending() is Some || m.read(room).outcome is Some
            &&& m.free().pending() is Some || m.free().outcome is Some
        },
{
}

/// One session at a time, and each freed once. A reply brings a session
/// into the state only where the reader owned none and had asked for one;
/// a session leaves the state only in answer to the request to free it; and
/// beginning an operation neither brings one in nor lets one go.
pub proof fn lemma_sessions_are_paired(
    m: ReaderModel,
    reply: ReadReply,
    name: Seq<char>,
    room: usize,
)
    ensures
        m.pending() == Some(ReadRequest::NewSession) ==> m.session() is None,
        m.advance(reply).session() != m.session() && m.advance(reply).session() is Some ==> {
            &&& m.pending() == Some(ReadRequest::NewSession)
            &&& reply == ReadReply::Session(m.advance(reply).session()->0)
        },
        m.advance(reply).session() != m.session() && m.session() is Some ==> {
            &&& m.pending() == Some(ReadRequest::Free(m.session()->0))
            &&& m.advance(reply).session() is None
        },
        m.list_files().session() == m.session(),
        m.reader_seek_obj(name).session() == m.session(),
        m.read(room).session() == m.session(),
        m.free().session() == m.session(),
{
}

/// A reader that owns no session refuses every operation with
/// `NullArchive`, and asks nothing of the engine.
pub proof fn lemma_no_session_no_request(m: ReaderModel, name: Seq<char>, room: usize)
    requires
        m.phase == ReaderPhase::Idle(None),
    ensures
        m.list_files() == m.refuse(),
        m.reader_seek_obj(name) == m.refuse(),
        m.read(room) == m.refuse(),
        m.free() == m.refuse(),
        m.refuse().pending() is None,
        m.refuse().outcome == Some(Err::<ReadOutputView, ErrorView>(ErrorView::NullArchive)),
{
}

/// Construction. A fresh reader asks for a session and then makes the four
/// setup calls in their order: all filters, all formats, the seek
/// callback, the open. When each has succeeded the reader is ready and owns
/// the session.
pub proof fn lemma_construction_succeeds(
    h: usize,
    filters: (c_int, Diagnostic),
    formats: (c_int, Diagnostic),
    seek: (c_int, Diagnostic),
    open: (c_int, Diagnostic),
)
    requires
        h != 0,
        status_ok(filters.0),
        status_ok(formats.0),
        status_ok(seek.0),
        status_ok(open.0),
    ensures
        ({
            let m0 = ReaderModel::initial();
            let m1 = m0.advance(ReadReply::Session(h));
            let m2 = m1.advance(ReadReply::Status(filters.0, filters.1));
            let m3 = m2.advance(ReadReply::Status(formats.0, formats.1));
            let m4 = m3.advance(ReadReply::Status(seek.0, seek.1));
            let m5 = m4.advance(ReadReply::Status(open.0, open.1));
            &&& m0.pending() == Some(ReadRequest::NewSession)
            &&& m1.pending() == Some(ReadRequest::SupportFilterAll(h))
            &&& m2.pending() == Some(ReadRequest::SupportFormatAll(h))
            &&& m3.pending() == Some(ReadRequest::SetSeekCallback(h))
            &&& m4.pending() == Some(ReadRequest::Open(h))
            &&& m5.phase == ReaderPhase::Idle(Some(h))
            &&& m5.outcome == Some(Ok::<ReadOutputView, ErrorView>(ReadOutputView::Done))
        }),
{
}

/// Construction is all or nothing. Where the engine gives no session the
/// reader fails with `NullArchive`. Where a setup call fails, whatever its
/// stage, the session is freed next, and after that the reader owns none
/// and reports the error behind the failed call.
pub proof fn lemma_failed_setup_frees_the_session(
    m: ReaderModel,
    h: usize,
    goal: Goal,
    stage: SetupStage,
    failed: (c_int, Diagnostic),
    freed: (c_int, Diagnostic),
)
    requires
        !status_ok(failed.0),
        m.phase == ReaderPhase::Configuring(h, goal, stage),
    ensures
        ({
            let none = ReaderModel::initial().advance(ReadReply::Session(0));
            &&& none.phase == ReaderPhase::Idle(None)
            &&& none.outcome == Some(Err::<ReadOutputView, ErrorView>(ErrorView::NullArchive))
        }),
        ({
            let m1 = m.advance(ReadReply::Status(failed.0, failed.1));
            let m2 = m1.advance(ReadReply::Status(freed.0, freed.1));
            &&& m1.pending() == Some(ReadRequest::Free(h))
            &&& m2.phase == ReaderPhase::Idle(None)
            &&& m2.outcome == Some(
                Err::<ReadOutputView, ErrorView>(crate::error::diagnosed(failed.1)),
            )
        }),
{
}

/// While the engine advances from header to header, an enumeration keeps
/// asking, and collects the record of each entry behind what it had.
pub proof fn lemma_listing_collects(m: ReaderModel, h: usize, steps: Seq<HeaderStep>)
    requires
        m.phase == ReaderPhase::Listing(h),
        all_succeed(steps),
    ensures
        m.run(header_replies(steps)) == (ReaderModel {
            listing: m.listing + recorded(steps),
            ..m
        }),
    decreases steps.len(),
{
    if steps.len() == 0 {
        assert(m.listing + recorded(steps) =~= m.listing);
    } else {
        let first = steps[0];
        let status = ReadReply::Status(first.code, first.diag);
        let entry = ReadReply::Entry(first.entry);
        let next = m.advance(status).advance(entry);
        assert(status_ok(first.code));
        lemma_run_pair(m, status, entry);
        lemma_run_split(m, seq![status, entry], header_replies(steps.skip(1)));
        assert(all_succeed(steps.skip(1))) by {
            assert forall|i: int| 0 <= i < steps.skip(1).len() implies status_ok(
                #[trigger] steps.skip(1)[i].code,
            ) by {
                assert(steps.skip(1)[i] == steps[i + 1]);
            }
        }
        lemma_listing_collects(next, h, steps.skip(1));
        assert(next.listing + recorded(steps.skip(1)) =~= m.listing + recorded(steps));
    }
}

/// Whether the engine reports a path name for the entry that is valid
/// UTF-8 of at least one byte.
pub open spec fn named(entry: EntryRecord) -> bool {
    entry.pathname matches Some(bytes) && bytes@.len() > 0 && valid_utf8(bytes@)
}

/// Enumeration returns every entry, in header order. On a reader that owns
/// a session: when the engine advances over `steps` and then reports the
/// end of the archive, the session is freed, and the result is the list
/// of the records of exactly those entries, in the order of their
/// headers. The path of each record is the path of its entry, and it is
/// not empty where the engine reports a path name for the entry.
pub proof fn lemma_list_files_returns_every_entry(
    m: ReaderModel,
    h: usize,
    steps: Seq<HeaderStep>,
    end: Diagnostic,
    freed: (c_int, Diagnostic),
)
    requires
        m.phase == ReaderPhase::Idle(Some(h)),
        all_succeed(steps),
    ensures
        ({
            let at_end = m.list_files().run(header_replies(steps)).advance(
                ReadReply::Status(ARCHIVE_EOF, end),
            );
            let done = at_end.advance(ReadReply::Status(freed.0, freed.1));
            &&& m.list_files().pending() == Some(ReadRequest::NextHeader(h))
            &&& at_end.pending() == Some(ReadRequest::Free(h))
            &&& done.phase == ReaderPhase::Idle(None)
            &&& done.outcome == Some(
                Ok::<ReadOutputView, ErrorView>(ReadOutputView::Files(recorded(steps))),
            )
            &&& recorded(steps).len() == steps.len()
            &&& forall|i: int|
                0 <= i < steps.len() ==> (#[trigger] recorded(steps)[i]).filepath == entry_path(
                    steps[i].entry,
                )
            &&& forall|i: int|
                0 <= i < steps.len() && named(steps[i].entry) ==> (#[trigger] recorded(
                    steps,
                )[i]).filepath.len() > 0
        }),
{
    let begun = m.list_files();
    lemma_listing_collects(begun, h, steps);
    assert(begun.listing + recorded(steps) =~= recorded(steps));
    assert forall|i: int| 0 <= i < steps.len() && named(steps[i].entry) implies (
    #[trigger] recorded(steps)[i]).filepath.len() > 0 by {
        lemma_path_is_empty_only_without_a_name(steps[i].entry);
    }
}

/// An enumeration that fails returns no partial list. When the engine fails
/// to advance, after any number of entries, the session is freed and the
/// result is the error behind the failure.
pub proof fn lemma_list_files_discards_on_failure(
    m: ReaderModel,
    h: usize,
    steps: Seq<HeaderStep>,
    failed: (c_int, Diagnostic),
    freed: (c_int, Diagnostic),
)
    requires
        m.phase == ReaderPhase::Idle(Some(h)),
        all_succeed(steps),
        !status_ok(failed.0),
        failed.0 != ARCHIVE_EOF,
    ensures
        ({
            let done = m.list_files().run(header_replies(steps)).advance(
                ReadReply::Status(failed.0, failed.1),
            ).advance(ReadReply::Status(freed.0, freed.1));
            &&& done.phase == ReaderPhase::Idle(None)
            &&& done.listing == Seq::<MetadataView>::empty()
            &&& done.outcome == Some(
                Err::<ReadOutputView, ErrorView>(crate::error::diagnosed(failed.1)),
            )
        }),
{
    lemma_listing_collects(m.list_files(), h, steps);
}

/// The reader once a seek for `name` has rebuilt the session as `h`: it
/// scans, and has no current entry.
pub open spec fn scanning(m: ReaderModel, name: Seq<char>, h: usize) -> ReaderModel {
    ReaderModel {
        phase: ReaderPhase::Scanning(h),
        current_entry: None,
        target: name,
        outcome: None,
        ..m
    }
}

/// A seek restarts the session. On a reader that owns a session, a seek
/// first rewinds the stream, then frees the session, then asks for a fresh
/// one and sets it up with the four setup calls; when all of that has
/// succeeded it scans the headers from the first.
pub proof fn lemma_seek_restarts_the_session(
    m: ReaderModel,
    h: usize,
    name: Seq<char>,
    position: u64,
    freed: (c_int, Diagnostic),
    fresh: usize,
    filters: (c_int, Diagnostic),
    formats: (c_int, Diagnostic),
    seek: (c_int, Diagnostic),
    open: (c_int, Diagnostic),
)
    requires
        m.phase == ReaderPhase::Idle(Some(h)),
        fresh != 0,
        status_ok(freed.0),
        status_ok(filters.0),
        status_ok(formats.0),
        status_ok(seek.0),
        status_ok(open.0),
    ensures
        ({
            let m0 = m.reader_seek_obj(name);
            let m1 = m0.advance(ReadReply::Rewound(Ok(position)));
            let m2 = m1.advance(ReadReply::Status(freed.0, freed.1));
            let m3 = m2.advance(ReadReply::Session(fresh));
            let m4 = m3.advance(ReadReply::Status(filters.0, filters.1));
            let m5 = m4.advance(ReadReply::Status(formats.0, formats.1));
            let m6 = m5.advance(ReadReply::Status(seek.0, seek.1));
            let m7 = m6.advance(ReadReply::Status(open.0, open.1));
            &&& m0.pending() == Some(ReadRequest::Rewind)
            &&& m1.pending() == Some(ReadRequest::Free(h))
            &&& m2.pending() == Some(ReadRequest::NewSession)
            &&& m3.pending() == Some(ReadRequest::SupportFilterAll(fresh))
            &&& m4.pending() == Some(ReadRequest::SupportFormatAll(fresh))
            &&& m5.pending() == Some(ReadRequest::SetSeekCallback(fresh))
            &&& m6.pending() == Some(ReadRequest::Open(fresh))
            &&& m7 == scanning(m, name, fresh)
            &&& m7.pending() == Some(ReadRequest::NextHeader(fresh))
        }),
{
}

/// While the engine advances over entries of other names, a seek keeps
/// asking and changes nothing.
pub proof fn lemma_scan_passes_other_entries(m: ReaderModel, h: usize, steps: Seq<HeaderStep>)
    requires
        m.phase == ReaderPhase::Scanning(h),
        all_succeed(steps),
        none_named(steps, m.target),
    ensures
        m.run(header_replies(steps)) == m,
    decreases steps.len(),
{
    if steps.len() > 0 {
        let first = steps[0];
        let status = ReadReply::Status(first.code, first.diag);
        let entry = ReadReply::Entry(first.entry);
        assert(status_ok(first.code));
        assert(entry_path(first.entry) != m.target);
        lemma_run_pair(m, status, entry);
        lemma_run_split(m, seq![status, entry], header_replies(steps.skip(1)));
        assert(all_succeed(steps.skip(1)) && none_named(steps.skip(1), m.target)) by {
            assert forall|i: int| 0 <= i < steps.skip(1).len() implies status_ok(
                #[trigger] steps.skip(1)[i].code,
            ) && entry_path(#[trigger] steps.skip(1)[i].entry) != m.target by {
                assert(steps.skip(1)[i] == steps[i + 1]);
            }
        }
        lemma_scan_passes_other_entries(m, h, steps.skip(1));
    }
}

/// A seek stops at the first entry of the name. When the scan passes
/// entries of other names and then meets one named `name`, the seek
/// succeeds there: that entry is the current entry, and no further header
/// is asked for, so the cursor stays on that entry's payload.
pub proof fn lemma_seek_stops_at_the_named_entry(
    m: ReaderModel,
    h: usize,
    name: Seq<char>,
    before: Seq<HeaderStep>,
    hit: HeaderStep,
)
    requires
        all_succeed(before),
        none_named(before, name),
        status_ok(hit.code),
        entry_path(hit.entry) == name,
    ensures
        ({
            let done = scanning(m, name, h).run(header_replies(before)).advance(
                ReadReply::Status(hit.code, hit.diag),
            ).advance(ReadReply::Entry(hit.entry));
            &&& done.phase == ReaderPhase::Idle(Some(h))
            &&& done.pending() is None
            &&& done.current_entry == Some(entry_metadata(hit.entry))
            &&& done.outcome == Some(Ok::<ReadOutputView, ErrorView>(ReadOutputView::Done))
        }),
{
    lemma_scan_passes_other_entries(scanning(m, name, h), h, before);
}

/// A seek for a name that no entry has fails with a not-found error that
/// names the path. The reader keeps its session and holds no current
/// entry; and a seek after that starts over, with the rewind of the stream,
/// so that it goes through a session of its own.
pub proof fn lemma_seek_reports_a_missing_entry(
    m: ReaderModel,
    h: usize,
    name: Seq<char>,
    before: Seq<HeaderStep>,
    end: Diagnostic,
    other: Seq<char>,
)
    requires
        all_succeed(before),
        none_named(before, name),
    ensures
        ({
            let done = scanning(m, name, h).run(header_replies(before)).advance(
                ReadReply::Status(ARCHIVE_EOF, end),
            );
            &&& done.phase == ReaderPhase::Idle(Some(h))
            &&& done.current_entry is None
            &&& done.outcome == Some(
                Err::<ReadOutputView, ErrorView>(
                    ErrorView::IO(IoErrorView::NotFound(not_found_message(name))),
                ),
            )
            &&& done.reader_seek_obj(other).pending() == Some(ReadRequest::Rewind)
            &&& done.reader_seek_obj(other).target == other
        }),
{
    lemma_scan_passes_other_entries(scanning(m, name, h), h, before);
}

/// A payload read reports the count that the engine returned; a negative
/// count is the error behind it. The cursor and the session stay.
pub proof fn lemma_read_reports_the_count(
    m: ReaderModel,
    h: usize,
    room: usize,
    count: isize,
    diag: Diagnostic,
)
    requires
        m.phase == ReaderPhase::Idle(Some(h)),
    ensures
        ({
            let done = m.read(room).advance(ReadReply::Data(count, diag));
            &&& m.read(room).pending() == Some(ReadRequest::ReadData(h, room))
            &&& done.phase == ReaderPhase::Idle(Some(h))
            &&& done.current_entry == m.current_entry
            &&& count >= 0 ==> done.outcome == Some(
                Ok::<ReadOutputView, ErrorView>(ReadOutputView::Bytes(count as usize)),
            )
            &&& count < 0 ==> done.outcome == Some(
                Err::<ReadOutputView, ErrorView>(crate::error::diagnosed(diag)),
            )
        }),
{
}

} // verus!
