//! What holds of every run of the write side.

use crate::carchive::{
    status_ok, Diagnostic, FileAttributes, StreamFailure, AE_IFMT, BUFFER_SIZE,
};
use crate::error::{diagnosed, stream_error, translated, ErrorView};
use crate::kinds::{Filter, Format};
use crate::metadata::{filesystem_metadata, MetadataView};
use crate::text::decimal;
use crate::writer::{
    bundle, bundle_with_method, compression_plan, entry_header, filter_top_level,
    format_top_level, preset_level, EntryHeaderView, Preset, SettingView, WriteReply,
    WriteRequestView, WriteResult, WriterModel, WriterPhase,
};
use libc::c_int;
use vstd::prelude::*;

verus! {

/// The replies of the engine to a run of configuration calls.
pub open spec fn status_replies(statuses: Seq<(c_int, Diagnostic)>) -> Seq<WriteReply> {
    statuses.map_values(|s: (c_int, Diagnostic)| WriteReply::Status(s.0, s.1))
}

pub open spec fn all_ok(statuses: Seq<(c_int, Diagnostic)>) -> bool {
    forall|i: int| 0 <= i < statuses.len() ==> status_ok((#[trigger] statuses[i]).0)
}

/// The format and the filter that are remembered after the settings of
/// `plan` have taken effect in their order, starting from `format` and
/// `filter`: the last format and the last filter of the plan, where it
/// has one.
pub open spec fn settled(plan: Seq<SettingView>, format: c_int, filter: c_int) -> (c_int, c_int)
    decreases plan.len(),
{
    if plan.len() == 0 {
        (format, filter)
    } else {
        match plan[0] {
            SettingView::Format(f) => settled(plan.skip(1), f, filter),
            SettingView::Filter(f) => settled(plan.skip(1), format, f),
            _ => settled(plan.skip(1), format, filter),
        }
    }
}

/// One chunk of payload that went through whole: its size, and the
/// diagnostic state after the write.
pub ghost struct ChunkStep {
    pub size: usize,
    pub diag: Diagnostic,
}

/// The replies of the source and of the engine to a run of chunks that
/// went through whole.
pub open spec fn chunk_replies(steps: Seq<ChunkStep>) -> Seq<WriteReply>
    decreases steps.len(),
{
    if steps.len() == 0 {
        Seq::empty()
    } else {
        seq![
            WriteReply::Chunk(Ok(steps[0].size)),
            WriteReply::Written(steps[0].size as isize, steps[0].diag),
        ] + chunk_replies(steps.skip(1))
    }
}

pub open spec fn all_whole(steps: Seq<ChunkStep>) -> bool {
    forall|i: int|
        0 <= i < steps.len() ==> 0 < (#[trigger] steps[i]).size <= isize::MAX
}

/// Taking replies one run after the other is taking them in one run.
pub proof fn lemma_run_split(m: WriterModel, first: Seq<WriteReply>, rest: Seq<WriteReply>)
    ensures
        m.run(first + rest) == m.run(first).run(rest),
    decreases first.len(),
{
    if first.len() == 0 {
        assert(first + rest =~= rest);
    } else {
        assert((first + rest).skip(1) =~= first.skip(1) + rest);
        lemma_run_split(m.advance(first[0]), first.skip(1), rest);
    }
}

/// A run of two replies.
pub proof fn lemma_run_pair(m: WriterModel, a: WriteReply, b: WriteReply)
    ensures
        m.run(seq![a, b]) == m.advance(a).advance(b),
{
    let both = seq![a, b];
    assert(both.skip(1) =~= seq![b]);
    assert(both.skip(1).skip(1) =~= Seq::<WriteReply>::empty());
    reveal_with_fuel(WriterModel::run, 3);
}

/// The state stays well formed, whatever the replies and whatever the
/// operations: the null handle never comes in, settings are left exactly
/// while settings are being applied, and a result is held back only while
/// an entry or the session is being released.
pub proof fn lemma_writer_stays_well_formed(
    m: WriterModel,
    reply: WriteReply,
    plan: Seq<SettingView>,
    header: EntryHeaderView,
    local: Seq<char>,
    path: Seq<char>,
)
    requires
        m.wf(),
    ensures
        WriterModel::initial().wf(),
        m.advance(reply).wf(),
        m.configure(plan).wf(),
        m.open().wf(),
        m.add_entry(header).wf(),
        m.add_file(local, path).wf(),
        m.free().wf(),
{
}

/// A driver is never left without a word. A well-formed writer is at rest
/// exactly when no request is pending. An operation begun at rest either
/// asks for something or has its result at once; and the reply that brings
/// a busy writer to rest brings the result of the operation with it.
pub proof fn lemma_every_operation_ends_with_an_outcome(
    m: WriterModel,
    reply: WriteReply,
    plan: Seq<SettingView>,
    header: EntryHeaderView,
    local: Seq<char>,
    path: Seq<char>,
)
    requires
        m.wf(),
    ensures
        m.pending() is None <==> m.idle(),
        !m.idle() && m.advance(reply).idle() ==> m.advance(reply).outcome is Some,
        m.idle() ==> {
            &&& m.configure(plan).pending() is Some || m.configure(plan).outcome is Some
            &&& m.open().pending() is Some || m.open().outcome is Some
            &&& m.add_entry(header).pending() is Some || m.add_entry(header).outcome is Some
            &&& m.add_file(local, path).pending() is Some || m.add_file(local, path).outcome
                is Some
            &&& m.free().pending() is Some || m.free().outcome is Some
        },
{
}

/// One session at a time, and each freed once. A reply brings a session
/// into the state only where the writer owned none and had asked for one;
/// a session leaves the state only in answer to the request to free it; and
/// beginning an operation neither brings one in nor lets one go.
pub proof fn lemma_sessions_are_paired(
    m: WriterModel,
    reply: WriteReply,
    plan: Seq<SettingView>,
    header: EntryHeaderView,
    local: Seq<char>,
    path: Seq<char>,
)
    ensures
        m.pending() == Some(WriteRequestView::NewSession) ==> m.session() is None,
        m.advance(reply).session() != m.session() && m.advance(reply).session() is Some ==> {
            &&& m.pending() == Some(WriteRequestView::NewSession)
            &&& reply == WriteReply::Session(m.advance(reply).session()->0)
        },
        m.advance(reply).session() != m.session() && m.session() is Some ==> {
            &&& m.pending() == Some(WriteRequestView::Free(m.session()->0))
            &&& m.advance(reply).session() is None
        },
        m.configure(plan).session() == m.session(),
        m.open().session() == m.session(),
        m.add_entry(header).session() == m.session(),
        m.add_file(local, path).session() == m.session(),
        m.free().session() == m.session(),
{
}

/// Every entry is released, and before the result is reported. An entry is
/// open from the moment its header is asked to be written. It is closed
/// only in answer to the request to release it; and while it is open, the
/// writer comes to rest only by that answer.
pub proof fn lemma_entries_are_released(m: WriterModel, reply: WriteReply)
    requires
        m.entry_open(),
    ensures
        m.pending() is Some,
        !m.advance(reply).entry_open() ==> {
            &&& m.pending() == Some(WriteRequestView::FreeEntry)
            &&& reply == WriteReply::EntryFreed
            &&& m.advance(reply).idle()
        },
        m.advance(reply).idle() ==> !m.advance(reply).entry_open(),
{
}

/// Construction. A fresh writer has neither format nor filter. It asks
/// for a session, then switches off the padding of the last block; when
/// that has succeeded the writer is ready. Where the engine gives no
/// session the writer fails with `NullArchive`; where the call fails, the
/// session is freed next and then the error behind the call is reported.
pub proof fn lemma_construction(
    h: usize,
    prepared: (c_int, Diagnostic),
    freed: (c_int, Diagnostic),
)
    requires
        h != 0,
    ensures
        ({
            let m0 = WriterModel::initial();
            let none = m0.advance(WriteReply::Session(0));
            let m1 = m0.advance(WriteReply::Session(h));
            let m2 = m1.advance(WriteReply::Status(prepared.0, prepared.1));
            let m3 = m2.advance(WriteReply::Status(freed.0, freed.1));
            &&& m0.file_format < 0 && m0.file_filter < 0
            &&& m0.pending() == Some(WriteRequestView::NewSession)
            &&& none.phase == WriterPhase::Idle(None)
            &&& none.outcome == Some(Err::<(), ErrorView>(ErrorView::NullArchive))
            &&& m1.pending() == Some(WriteRequestView::SetBytesInLastBlock(h, 1))
            &&& status_ok(prepared.0) ==> {
                &&& m2.phase == WriterPhase::Idle(Some(h))
                &&& m2.outcome == Some(Ok::<(), ErrorView>(()))
                &&& m2.file_format < 0 && m2.file_filter < 0
            }
            &&& !status_ok(prepared.0) ==> {
                &&& m2.pending() == Some(WriteRequestView::Free(h))
                &&& m3.phase == WriterPhase::Idle(None)
                &&& m3.outcome == Some(Err::<(), ErrorView>(diagnosed(prepared.1)))
            }
        }),
{
}

/// A writer cannot be opened before both its format and its filter are
/// set. On a writer at rest on which either was never set, opening fails
/// with `IncompleteInitialization`; no request is made of the engine, and
/// nothing else changes.
pub proof fn lemma_open_needs_format_and_filter(m: WriterModel)
    requires
        m.idle(),
        m.file_format < 0 || m.file_filter < 0,
    ensures
        m.open().outcome == Some(Err::<(), ErrorView>(ErrorView::IncompleteInitialization)),
        m.open().pending() is None,
        m.open() == (WriterModel { outcome: m.open().outcome, ..m }),
        WriterModel::initial().file_format < 0,
        WriterModel::initial().file_filter < 0,
{
}

/// Opening a writer whose format and filter are set asks the engine to
/// open the session, once, and reports what the status translates to.
pub proof fn lemma_open_reports_the_status(m: WriterModel, h: usize, opened: (c_int, Diagnostic))
    requires
        m.phase == WriterPhase::Idle(Some(h)),
        m.file_format >= 0,
        m.file_filter >= 0,
    ensures
        m.open().pending() == Some(WriteRequestView::Open(h)),
        m.open().advance(WriteReply::Status(opened.0, opened.1)).phase == WriterPhase::Idle(
            Some(h),
        ),
        m.open().advance(WriteReply::Status(opened.0, opened.1)).outcome == Some(
            translated(opened.0, opened.1),
        ),
{
}

/// The presets are ordered: for every filter and every format that has
/// levels, "low" picks a level no higher than "mid", and "mid" one no
/// higher than "high"; "high" picks 22 for zstd and 9 wherever else there
/// are levels.
pub proof fn lemma_preset_levels_are_ordered(top: u32, filter: c_int, format: c_int)
    ensures
        preset_level(Preset::Low, top) <= preset_level(Preset::Mid, top) <= preset_level(
            Preset::High,
            top,
        ),
        filter_top_level(filter) matches Some(level) ==> level == 9 || (level == 22 && filter
            == crate::carchive::ARCHIVE_FILTER_ZSTD),
        format_top_level(format) matches Some(level) ==> level == 9,
{
}

/// The levels that the presets pick, as the engine is told them: "9", "4"
/// and "0" where the highest level is 9, and "22", "11" and "0" for zstd.
pub proof fn lemma_preset_levels_in_words()
    ensures
        decimal(preset_level(Preset::High, 9) as nat) == "9"@,
        decimal(preset_level(Preset::Mid, 9) as nat) == "4"@,
        decimal(preset_level(Preset::Low, 9) as nat) == "0"@,
        decimal(preset_level(Preset::High, 22) as nat) == "22"@,
        decimal(preset_level(Preset::Mid, 22) as nat) == "11"@,
        decimal(preset_level(Preset::Low, 22) as nat) == "0"@,
{
    reveal_strlit("9");
    reveal_strlit("4");
    reveal_strlit("0");
    reveal_strlit("22");
    reveal_strlit("11");
    reveal_with_fuel(decimal, 3);
    assert(decimal(9) =~= "9"@);
    assert(decimal(4) =~= "4"@);
    assert(decimal(0) =~= "0"@);
    assert(decimal(22) =~= "22"@);
    assert(decimal(11) =~= "11"@);
}

/// A preset on a writer whose filter and format have no levels sets
/// nothing, asks nothing of the engine, and succeeds.
pub proof fn lemma_preset_passes_over_unknown_kinds(m: WriterModel, h: usize, preset: Preset)
    requires
        m.phase == WriterPhase::Idle(Some(h)),
        filter_top_level(m.file_filter) is None,
        format_top_level(m.file_format) is None,
    ensures
        compression_plan(preset, m.file_filter, m.file_format) =~= Seq::<SettingView>::empty(),
        m.configure(compression_plan(preset, m.file_filter, m.file_format)) == m.finish(
            Some(h),
            Ok(()),
        ),
{
}

/// While the engine accepts them, settings are applied in their order.
/// After `statuses.len()` of the settings of `plan` were accepted, the
/// format and the filter are those of the settings that were accepted.
/// While settings are left, the first that is left is pending; after the
/// last one the operation has succeeded.
pub proof fn lemma_settings_apply_in_order(
    m: WriterModel,
    h: usize,
    plan: Seq<SettingView>,
    statuses: Seq<(c_int, Diagnostic)>,
)
    requires
        m.phase == WriterPhase::Applying(h),
        m.script == plan,
        plan.len() > 0,
        statuses.len() <= plan.len(),
        all_ok(statuses),
    ensures
        ({
            let k = statuses.len() as int;
            let after = m.run(status_replies(statuses));
            let now = settled(plan.take(k), m.file_format, m.file_filter);
            &&& k < plan.len() ==> after == (WriterModel {
                script: plan.skip(k),
                file_format: now.0,
                file_filter: now.1,
                ..m
            })
            &&& k < plan.len() ==> after.pending() == Some(WriteRequestView::Apply(h, plan[k]))
            &&& k == plan.len() ==> after == (WriterModel {
                phase: WriterPhase::Idle(Some(h)),
                script: Seq::empty(),
                file_format: now.0,
                file_filter: now.1,
                outcome: Some(Ok(())),
                ..m
            })
        }),
    decreases statuses.len(),
{
    let k = statuses.len() as int;
    if k == 0 {
        assert(plan.skip(0) =~= plan);
        assert(plan.take(0) =~= Seq::<SettingView>::empty());
    } else {
        let next = m.advance(WriteReply::Status(statuses[0].0, statuses[0].1));
        assert(status_ok(statuses[0].0));
        assert(plan.remove(0) =~= plan.skip(1));
        assert(status_replies(statuses).skip(1) =~= status_replies(statuses.skip(1)));
        assert(plan.take(k).skip(1) =~= plan.skip(1).take(k - 1));
        assert(plan.take(k)[0] == plan[0]);
        if plan.len() == 1 {
            assert(plan.take(k).skip(1) =~= Seq::<SettingView>::empty());
            assert(statuses.skip(1) =~= Seq::<(c_int, Diagnostic)>::empty());
            reveal_with_fuel(settled, 2);
        } else {
            assert(all_ok(statuses.skip(1))) by {
                assert forall|i: int| 0 <= i < statuses.skip(1).len() implies status_ok(
                    (#[trigger] statuses.skip(1)[i]).0,
                ) by {
                    assert(statuses.skip(1)[i] == statuses[i + 1]);
                }
            }
            lemma_settings_apply_in_order(next, h, plan.skip(1), statuses.skip(1));
            assert(plan.skip(1).skip(k - 1) =~= plan.skip(k));
        }
    }
}

/// A plan that the engine accepts whole succeeds, and leaves the last
/// format and the last filter of the plan as the writer's own.
pub proof fn lemma_accepted_plan_succeeds(
    m: WriterModel,
    h: usize,
    plan: Seq<SettingView>,
    statuses: Seq<(c_int, Diagnostic)>,
)
    requires
        m.phase == WriterPhase::Idle(Some(h)),
        plan.len() > 0,
        statuses.len() == plan.len(),
        all_ok(statuses),
    ensures
        m.configure(plan).pending() == Some(WriteRequestView::Apply(h, plan[0])),
        m.configure(plan).run(status_replies(statuses)) == (WriterModel {
            phase: WriterPhase::Idle(Some(h)),
            script: Seq::empty(),
            file_format: settled(plan, m.file_format, m.file_filter).0,
            file_filter: settled(plan, m.file_format, m.file_filter).1,
            outcome: Some(Ok(())),
            ..m
        }),
{
    lemma_settings_apply_in_order(m.configure(plan), h, plan, statuses);
    assert(plan.take(plan.len() as int) =~= plan);
}

/// The first setting that the engine refuses ends the operation. The
/// settings before it have taken effect; it and the settings behind it
/// have not, and nothing more is asked; the result is the error behind the
/// refusal.
pub proof fn lemma_refused_setting_ends_the_plan(
    m: WriterModel,
    h: usize,
    plan: Seq<SettingView>,
    statuses: Seq<(c_int, Diagnostic)>,
    refused: (c_int, Diagnostic),
)
    requires
        m.phase == WriterPhase::Idle(Some(h)),
        statuses.len() < plan.len(),
        all_ok(statuses),
        !status_ok(refused.0),
    ensures
        m.configure(plan).run(status_replies(statuses)).advance(
            WriteReply::Status(refused.0, refused.1),
        ) == (WriterModel {
            phase: WriterPhase::Idle(Some(h)),
            script: Seq::empty(),
            file_format: settled(
                plan.take(statuses.len() as int),
                m.file_format,
                m.file_filter,
            ).0,
            file_filter: settled(
                plan.take(statuses.len() as int),
                m.file_format,
                m.file_filter,
            ).1,
            outcome: Some(Err(diagnosed(refused.1))),
            ..m
        }),
{
    lemma_settings_apply_in_order(m.configure(plan), h, plan, statuses);
}

/// A bundle sets both the format and the filter, in that order, so that a
/// writer on which a bundle succeeded can be opened.
pub proof fn lemma_bundle_makes_the_writer_openable(
    m: WriterModel,
    h: usize,
    format: c_int,
    filter: c_int,
    method: Seq<char>,
    first: (c_int, Diagnostic),
    second: (c_int, Diagnostic),
    third: (c_int, Diagnostic),
)
    requires
        m.phase == WriterPhase::Idle(Some(h)),
        format >= 0,
        filter >= 0,
        status_ok(first.0),
        status_ok(second.0),
        status_ok(third.0),
    ensures
        ({
            let m0 = m.configure(bundle(format, filter));
            let m1 = m0.advance(WriteReply::Status(first.0, first.1));
            let m2 = m1.advance(WriteReply::Status(second.0, second.1));
            &&& m0.pending() == Some(WriteRequestView::Apply(h, SettingView::Format(format)))
            &&& m1.pending() == Some(WriteRequestView::Apply(h, SettingView::Filter(filter)))
            &&& m2.phase == WriterPhase::Idle(Some(h))
            &&& m2.outcome == Some(Ok::<(), ErrorView>(()))
            &&& m2.file_format == format && m2.file_filter == filter
            &&& m2.open().pending() == Some(WriteRequestView::Open(h))
        }),
        ({
            let m0 = m.configure(bundle_with_method(format, method));
            let m1 = m0.advance(WriteReply::Status(first.0, first.1));
            let m2 = m1.advance(WriteReply::Status(second.0, second.1));
            let m3 = m2.advance(WriteReply::Status(third.0, third.1));
            &&& m0.pending() == Some(WriteRequestView::Apply(h, SettingView::Format(format)))
            &&& m1.pending() == Some(
                WriteRequestView::Apply(
                    h,
                    SettingView::Filter(crate::carchive::ARCHIVE_FILTER_NONE),
                ),
            )
            &&& m2.pending() == Some(
                WriteRequestView::Apply(h, SettingView::FormatOption("compression"@, method)),
            )
            &&& m3.phase == WriterPhase::Idle(Some(h))
            &&& m3.outcome == Some(Ok::<(), ErrorView>(()))
            &&& m3.file_format == format
            &&& m3.file_filter == crate::carchive::ARCHIVE_FILTER_NONE
            &&& m3.open().pending() == Some(WriteRequestView::Open(h))
        }),
{
    let plan = bundle(format, filter);
    assert(plan.remove(0) =~= seq![SettingView::Filter(filter)]);
    assert(plan.remove(0).remove(0) =~= Seq::<SettingView>::empty());
    let long = bundle_with_method(format, method);
    assert(long.remove(0) =~= seq![
        SettingView::Filter(crate::carchive::ARCHIVE_FILTER_NONE),
        SettingView::FormatOption("compression"@, method),
    ]);
    assert(long.remove(0).remove(0) =~= seq![SettingView::FormatOption("compression"@, method)]);
    assert(long.remove(0).remove(0).remove(0) =~= Seq::<SettingView>::empty());
}

/// A writer whose format and filter were set by kind can be opened: the
/// integer of a kind is never taken for the mark of "never set".
pub proof fn lemma_output_set_by_kind_can_be_opened(
    m: WriterModel,
    h: usize,
    format: Format,
    filter: Filter,
    first: (c_int, Diagnostic),
    second: (c_int, Diagnostic),
)
    requires
        m.phase == WriterPhase::Idle(Some(h)),
        status_ok(first.0),
        status_ok(second.0),
    ensures
        ({
            let set = m.configure(bundle(format.raw(), filter.raw())).advance(
                WriteReply::Status(first.0, first.1),
            ).advance(WriteReply::Status(second.0, second.1));
            &&& set.file_format == format.raw()
            &&& set.file_filter == filter.raw()
            &&& set.open().pending() == Some(WriteRequestView::Open(h))
        }),
{
    lemma_bundle_makes_the_writer_openable(
        m,
        h,
        format.raw(),
        filter.raw(),
        Seq::empty(),
        first,
        second,
        second,
    );
}

/// While chunks go through whole, the payload loop goes on: each chunk of
/// the source is written, and the next one is asked for.
pub proof fn lemma_payload_loop_goes_on(m: WriterModel, h: usize, steps: Seq<ChunkStep>)
    requires
        m.phase == WriterPhase::Fetching(h),
        all_whole(steps),
    ensures
        m.run(chunk_replies(steps)) == m,
    decreases steps.len(),
{
    if steps.len() > 0 {
        let first = steps[0];
        let chunk = WriteReply::Chunk(Ok(first.size));
        let written = WriteReply::Written(first.size as isize, first.diag);
        assert(0 < first.size <= isize::MAX);
        lemma_run_pair(m, chunk, written);
        lemma_run_split(m, seq![chunk, written], chunk_replies(steps.skip(1)));
        assert(all_whole(steps.skip(1))) by {
            assert forall|i: int| 0 <= i < steps.skip(1).len() implies 0 < (
            #[trigger] steps.skip(1)[i]).size <= isize::MAX by {
                assert(steps.skip(1)[i] == steps[i + 1]);
            }
        }
        lemma_payload_loop_goes_on(m, h, steps.skip(1));
    }
}

/// The mode of an entry holds both its node type and its permission.
/// Where the node type keeps to the type bits and the permission keeps
/// clear of them, each can be read back from the mode.
pub proof fn lemma_mode_holds_type_and_permission(path: Seq<char>, meta: MetadataView)
    requires
        meta.nodetype & !AE_IFMT == 0,
        meta.perm & AE_IFMT == 0,
    ensures
        entry_header(path, meta).mode & AE_IFMT == meta.nodetype,
        entry_header(path, meta).mode & !AE_IFMT == meta.perm,
        entry_header(path, meta).perm == meta.perm,
{
    let t = meta.nodetype;
    let p = meta.perm;
    assert(t & !0o170000u32 == 0 && p & 0o170000u32 == 0 ==> (t | p) & 0o170000u32 == t && (t
        | p) & !0o170000u32 == p) by (bit_vector);
}

/// Adding an entry. The header is written with the fields of the record
/// and the given path; the payload is asked for in chunks of the buffer's
/// size and written chunk by chunk; when the source gives no more, the
/// entry is released and the operation has succeeded.
pub proof fn lemma_add_entry_succeeds(
    m: WriterModel,
    h: usize,
    header: EntryHeaderView,
    headed: (c_int, Diagnostic),
    steps: Seq<ChunkStep>,
)
    requires
        m.phase == WriterPhase::Idle(Some(h)),
        status_ok(headed.0),
        all_whole(steps),
    ensures
        ({
            let m0 = m.add_entry(header);
            let m1 = m0.advance(WriteReply::Status(headed.0, headed.1));
            let m2 = m1.run(chunk_replies(steps));
            let m3 = m2.advance(WriteReply::Chunk(Ok(0)));
            let m4 = m3.advance(WriteReply::EntryFreed);
            &&& m0.pending() == Some(WriteRequestView::WriteHeader(h, header))
            &&& m1.pending() == Some(WriteRequestView::ReadChunk(BUFFER_SIZE))
            &&& m2 == m1
            &&& m3.pending() == Some(WriteRequestView::FreeEntry)
            &&& m4.phase == WriterPhase::Idle(Some(h))
            &&& m4.outcome == Some(Ok::<(), ErrorView>(()))
        }),
{
    let m1 = m.add_entry(header).advance(WriteReply::Status(headed.0, headed.1));
    lemma_payload_loop_goes_on(m1, h, steps);
}

/// Adding an entry fails on the first thing that goes wrong, and the entry
/// is released all the same. A header that the engine refuses, a source
/// that fails, and a chunk of which the engine takes any other number of
/// bytes than it was given, each lead to the release of the entry and then
/// to the error: the one behind the engine's failure, or the stream's own.
pub proof fn lemma_add_entry_fails_cleanly(
    m: WriterModel,
    h: usize,
    n: usize,
    refused: (c_int, Diagnostic),
    failure: StreamFailure,
    count: isize,
    diag: Diagnostic,
)
    requires
        !status_ok(refused.0),
        count != n,
    ensures
        ({
            let heading = WriterModel { phase: WriterPhase::Heading(h), ..m };
            let m1 = heading.advance(WriteReply::Status(refused.0, refused.1));
            let m2 = m1.advance(WriteReply::EntryFreed);
            &&& m1.pending() == Some(WriteRequestView::FreeEntry)
            &&& m2.phase == WriterPhase::Idle(Some(h))
            &&& m2.outcome == Some(Err::<(), ErrorView>(diagnosed(refused.1)))
        }),
        ({
            let fetching = WriterModel { phase: WriterPhase::Fetching(h), ..m };
            let m1 = fetching.advance(WriteReply::Chunk(Err(failure)));
            let m2 = m1.advance(WriteReply::EntryFreed);
            &&& m1.pending() == Some(WriteRequestView::FreeEntry)
            &&& m2.phase == WriterPhase::Idle(Some(h))
            &&& m2.outcome == Some(Err::<(), ErrorView>(ErrorView::IO(stream_error(failure))))
        }),
        ({
            let storing = WriterModel { phase: WriterPhase::Storing(h, n), ..m };
            let m1 = storing.advance(WriteReply::Written(count, diag));
            let m2 = m1.advance(WriteReply::EntryFreed);
            &&& storing.pending() == Some(WriteRequestView::WriteData(h, n))
            &&& m1.pending() == Some(WriteRequestView::FreeEntry)
            &&& m2.phase == WriterPhase::Idle(Some(h))
            &&& m2.outcome == Some(Err::<(), ErrorView>(diagnosed(diag)))
        }),
{
}

/// Adding a file is adding an entry whose record is read off the file. The
/// local file is opened first. Where that fails, the stream's error is the
/// result and the engine is asked nothing. Else the entry is added under
/// the given path with the attributes that the filesystem reports.
pub proof fn lemma_add_file_adds_an_entry(
    m: WriterModel,
    h: usize,
    local: Seq<char>,
    path: Seq<char>,
    attrs: FileAttributes,
    failure: StreamFailure,
)
    requires
        m.phase == WriterPhase::Idle(Some(h)),
    ensures
        ({
            let m0 = m.add_file(local, path);
            let found = m0.advance(WriteReply::File(Ok(attrs)));
            let missing = m0.advance(WriteReply::File(Err(failure)));
            let header = entry_header(path, filesystem_metadata(attrs));
            &&& m0.pending() == Some(WriteRequestView::OpenFile(local))
            &&& found.pending() == Some(WriteRequestView::WriteHeader(h, header))
            &&& found == (WriterModel { local_path: local, archive_path: path, ..m }).add_entry(
                header,
            )
            &&& missing.phase == WriterPhase::Idle(Some(h))
            &&& missing.outcome == Some(Err::<(), ErrorView>(ErrorView::IO(stream_error(failure))))
        }),
{
}

/// Teardown frees the session, and the writer owns none afterwards. The
/// result is what the status of the free translates to; whoever drops the
/// writer ignores it.
pub proof fn lemma_teardown_frees_the_session(m: WriterModel, h: usize, freed: (c_int, Diagnostic))
    requires
        m.phase == WriterPhase::Idle(Some(h)),
    ensures
        m.free().pending() == Some(WriteRequestView::Free(h)),
        m.free().advance(WriteReply::Status(freed.0, freed.1)).phase == WriterPhase::Idle(None),
        m.free().advance(WriteReply::Status(freed.0, freed.1)).outcome == Some(
            translated(freed.0, freed.1),
        ),
{
}

} // verus!
