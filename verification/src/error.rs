//! The error taxonomy, and how the engine's status codes and diagnostic
//! state are turned into it.

use crate::carchive::{decode_lossy, is_success, lossy_text, status_ok, Diagnostic, StreamFailure};
use libc::c_int;
use vstd::prelude::*;

verus! {

/// The error type of std for a path that is not UTF-8. It is only carried.
#[verifier::external_type_specification]
#[verifier::external_body]
pub struct ExUtf8Error(core::str::Utf8Error);

/// A platform I/O failure, as plain data.
#[derive(Debug, PartialEq, Eq)]
pub enum IoError {
    /// The platform's error for an `errno` value that the engine reported.
    Os(c_int),
    /// No entry of the archive has the requested path; the message names it.
    NotFound(String),
    /// An operation of the wrapped stream failed.
    Stream(StreamFailure),
}

#[derive(Debug, PartialEq, Eq)]
pub enum Error {
    /// The engine reported a diagnostic in words.
    Extraction(String),
    IO(IoError),
    Utf8(core::str::Utf8Error),
    /// The engine failed and neither of its diagnostic channels said why.
    Unknown(String),
    /// A writer was opened before both its format and its filter were set.
    IncompleteInitialization,
    UnknownFilter,
    UnknownFormat,
    /// No session: the engine returned a null handle, or the session is gone.
    NullArchive,
}

pub ghost enum IoErrorView {
    Os(c_int),
    NotFound(Seq<char>),
    Stream { description: Seq<char>, os_code: Option<c_int> },
}

pub ghost enum ErrorView {
    Extraction(Seq<char>),
    IO(IoErrorView),
    Utf8(core::str::Utf8Error),
    Unknown(Seq<char>),
    IncompleteInitialization,
    UnknownFilter,
    UnknownFormat,
    NullArchive,
}

impl View for IoError {
    type V = IoErrorView;

    open spec fn view(&self) -> IoErrorView {
        match *self {
            IoError::Os(code) => IoErrorView::Os(code),
            IoError::NotFound(message) => IoErrorView::NotFound(message@),
            IoError::Stream(failure) => stream_error(failure),
        }
    }
}

impl View for Error {
    type V = ErrorView;

    open spec fn view(&self) -> ErrorView {
        match *self {
            Error::Extraction(message) => ErrorView::Extraction(message@),
            Error::IO(io) => ErrorView::IO(io@),
            Error::Utf8(e) => ErrorView::Utf8(e),
            Error::Unknown(message) => ErrorView::Unknown(message@),
            Error::IncompleteInitialization => ErrorView::IncompleteInitialization,
            Error::UnknownFilter => ErrorView::UnknownFilter,
            Error::UnknownFormat => ErrorView::UnknownFormat,
            Error::NullArchive => ErrorView::NullArchive,
        }
    }
}

/// The I/O error that stands for a failure of the wrapped stream.
pub open spec fn stream_error(failure: StreamFailure) -> IoErrorView {
    IoErrorView::Stream { description: failure.description@, os_code: failure.os_code }
}

/// The fixed message of an engine failure that left no diagnostic.
pub open spec fn unknown_message() -> Seq<char> {
    "Cannot read error string from archive"@
}

/// The error that a diagnostic state stands for. The error string comes
/// first, the `errno` second, the fixed message last.
pub open spec fn diagnosed(diag: Diagnostic) -> ErrorView {
    if diag.message is Some && diag.message->0@.len() > 0 {
        ErrorView::Extraction(lossy_text(diag.message->0@))
    } else if diag.errno != 0 {
        ErrorView::IO(IoErrorView::Os(diag.errno))
    } else {
        ErrorView::Unknown(unknown_message())
    }
}

/// What a status code, with the diagnostic state behind it, translates to.
pub open spec fn translated(status: c_int, diag: Diagnostic) -> Result<(), ErrorView> {
    if status_ok(status) {
        Ok(())
    } else {
        Err(diagnosed(diag))
    }
}

impl Error {
    /// The error behind a failed engine call, read from the session's
    /// diagnostic state: a non-empty error string gives `Extraction`, else a
    /// non-zero `errno` gives the platform's I/O error, else `Unknown`.
    pub fn from_diagnostic(diag: Diagnostic) -> (e: Error)
        ensures
            e@ == diagnosed(diag),
    {
        let errno = diag.errno;
        match diag.message {
            Some(bytes) => {
                if bytes.len() > 0 {
                    return Error::Extraction(decode_lossy(&bytes));
                }
            },
            None => {},
        }
        if errno != 0 {
            return Error::IO(IoError::Os(errno));
        }
        Error::Unknown(String::from_str("Cannot read error string from archive"))
    }

    /// The error for a failure of the wrapped stream.
    pub fn from_stream(failure: StreamFailure) -> (e: Error)
        ensures
            e@ == ErrorView::IO(stream_error(failure)),
    {
        Error::IO(IoError::Stream(failure))
    }
}

/// Translates the status of an engine call. "Ok" and "warn" are success;
/// any other status is the error that the diagnostic state stands for.
pub fn translate(status: c_int, diag: Diagnostic) -> (r: Result<(), Error>)
    ensures
        r is Ok <==> status_ok(status),
        r matches Err(e) ==> e@ == diagnosed(diag),
{
    if is_success(status) {
        Ok(())
    } else {
        Err(Error::from_diagnostic(diag))
    }
}

} // verus!
