//! The stream bridge: what the engine's callbacks report.
//!
//! The engine pulls input, repositions its source and pushes output through
//! callbacks. A callback hands the stream's answer to one of these functions
//! and reports to the engine what comes back. A failure of the stream never
//! travels through a callback as such: it becomes the session's error and a
//! negative count.

use crate::carchive::StreamFailure;
use libc::c_int;
use vstd::prelude::*;
use vstd::utf8::encode_utf8;

verus! {

/// What a data callback makes known to the engine.
#[derive(Debug, PartialEq, Eq)]
pub struct CallbackReport {
    /// The number of bytes moved, or -1.
    pub count: isize,
    /// The error to set on the session: an `errno` value, and a description
    /// as the bytes of a C string, without the terminator.
    pub error: Option<(c_int, Vec<u8>)>,
}

/// Whether `text` is `bytes` as far as a C string can hold it: all of it up
/// to the first zero byte.
pub open spec fn is_c_text(text: Seq<u8>, bytes: Seq<u8>) -> bool {
    &&& text.len() <= bytes.len()
    &&& text == bytes.take(text.len() as int)
    &&& forall|i: int| 0 <= i < text.len() ==> text[i] != 0
    &&& text.len() == bytes.len() || bytes[text.len() as int] == 0
}

/// What a data callback reports for a stream operation that moved `size`
/// bytes, or that failed.
pub open spec fn reported(outcome: Result<usize, StreamFailure>, report: CallbackReport) -> bool {
    match outcome {
        Ok(size) => report.count == size as isize && report.error is None,
        Err(failure) => {
            &&& report.count == -1
            &&& report.error matches Some(error)
            &&& error.0 == (match failure.os_code {
                Some(code) => code,
                None => 0,
            })
            &&& is_c_text(error.1@, encode_utf8(failure.description@))
        },
    }
}

/// The bytes of `text` up to its first zero byte: a description must not
/// make the callback fail where the engine wants a C string.
pub fn c_text(text: &str) -> (bytes: Vec<u8>)
    ensures
        is_c_text(bytes@, encode_utf8(text@)),
{
    let all = text.as_bytes();
    let mut bytes: Vec<u8> = Vec::new();
    let mut i: usize = 0;
    while i < all.len() && all[i] != 0
        invariant
            i <= all.len(),
            bytes@ == all@.take(i as int),
            forall|j: int| 0 <= j < i ==> all@[j] != 0,
        decreases all.len() - i,
    {
        bytes.push(all[i]);
        i += 1;
        assert(bytes@ =~= all@.take(i as int));
    }
    bytes
}

fn report(outcome: Result<usize, StreamFailure>) -> (r: CallbackReport)
    ensures
        reported(outcome, r),
{
    match outcome {
        Ok(size) => CallbackReport { count: #[verifier::truncate] (size as isize), error: None },
        Err(e) => {
            let errno = match e.os_code {
                Some(code) => code,
                None => 0,
            };
            CallbackReport { count: -1, error: Some((errno, c_text(e.description.as_str()))) }
        },
    }
}

/// The pull callback: the source was read into the bridge's buffer. The
/// engine is told how many bytes the buffer holds; after a failure it is
/// told -1, and the failure's description, as far as a C string holds it,
/// and its OS error code (0 where there is none) become the session's
/// error.
pub fn archivereader_read(outcome: Result<usize, StreamFailure>) -> (r: CallbackReport)
    ensures
        reported(outcome, r),
{
    report(outcome)
}

/// The push callback: a block of output was handed to the sink. The engine
/// is told how many bytes the sink took; after a failure it is told -1,
/// and the failure's description, as far as a C string holds it, and its OS
/// error code (0 where there is none) become the session's error.
pub fn archivewriter_write(outcome: Result<usize, StreamFailure>) -> (r: CallbackReport)
    ensures
        reported(outcome, r),
{
    report(outcome)
}

/// A position in the source, as the source's seek operation takes it.
#[derive(Clone, Copy, Debug, PartialEq, Eq, Structural)]
pub enum SeekTarget {
    /// So many bytes from the start.
    Start(u64),
    /// So many bytes from the current position.
    Current(i64),
    /// So many bytes from the end.
    End(i64),
}

/// The position that an (offset, whence) pair of the engine means: whence 0
/// counts from the start, 1 from the current position, 2 from the end.
pub open spec fn seek_target(offset: i64, whence: c_int) -> Option<SeekTarget> {
    if whence == 0 {
        Some(SeekTarget::Start(offset as u64))
    } else if whence == 1 {
        Some(SeekTarget::Current(offset))
    } else if whence == 2 {
        Some(SeekTarget::End(offset))
    } else {
        None
    }
}

/// The seek callback, before the source is touched: where to seek. `None`
/// for a whence that is not known: the callback then reports -1 and leaves
/// the source alone.
pub fn archivereader_seek(offset: i64, whence: c_int) -> (target: Option<SeekTarget>)
    ensures
        target == seek_target(offset, whence),
    no_unwind
{
    match whence {
        0 => Some(SeekTarget::Start(#[verifier::truncate] (offset as u64))),
        1 => Some(SeekTarget::Current(offset)),
        2 => Some(SeekTarget::End(offset)),
        _ => None,
    }
}

/// The seek callback, after the source has answered: the new absolute
/// offset, or -1 where the seek failed.
pub fn archivereader_seek_result(outcome: Result<u64, StreamFailure>) -> (position: i64)
    ensures
        match outcome {
            Ok(offset) => position == offset as i64,
            Err(_) => position == -1,
        },
    no_unwind
{
    match outcome {
        Ok(offset) => #[verifier::truncate] (offset as i64),
        Err(_) => -1,
    }
}

} // verus!
