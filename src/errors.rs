//! Errors, and the decisions of the error channel through which the sensors
//! backend reports configuration and fatal problems.

use vstd::prelude::*;

verus! {

/// Text shown for a chip, bus or feature whose name or label cannot be had.
pub const PLACEHOLDER: &'static str = "\u{fffd}";
/// Text reported for a backend error whose message is missing.
pub const UNKNOWN_ERROR: &'static str = "<unknown-error>";
/// Text reported for a fatal error whose procedure name is missing or invalid.
pub const UNKNOWN_PROCEDURE: &'static str = "<unknown-procedure>";

/// Class of an input/output error, as far as this library tells them apart.
#[derive(Debug, Clone, Copy, PartialEq, Eq, Structural)]
pub enum IoErrorKind {
    /// A record that was expected is missing.
    NotFound,
    /// A second live instance was requested.
    AlreadyExists,
    /// Data handed back was malformed, truncated or out of range.
    InvalidData,
    /// A request was malformed.
    InvalidInput,
    /// A configuration path or stream refers to a directory.
    IsADirectory,
    /// An operating system error, by its number.
    Os(i32),
    /// Any other error.
    Other,
}

/// Error of a failed function.
#[derive(Debug, PartialEq, Eq)]
pub enum Error {
    /// A backend call returned a non-zero status.
    LMSensors {
        /// The backend procedure that failed.
        operation: &'static str,
        /// The magnitude of the status it returned.
        number: i32,
        /// The backend's description of that status.
        description: String,
    },
    /// An input/output class error detected around a backend call.
    IO {
        /// The operation that failed.
        operation: &'static str,
        /// What went wrong.
        kind: IoErrorKind,
    },
    /// An input/output class error on a named path.
    IO1Path {
        /// The operation that failed.
        operation: &'static str,
        /// The path, as bytes.
        path: Vec<u8>,
        /// What went wrong.
        kind: IoErrorKind,
    },
    /// A path is not valid UTF-8.
    PathIsNotUTF8(Vec<u8>),
    /// The lock that serializes backend calls was abandoned by a failed holder.
    PoisonedLMSensors,
    /// Text handed to the backend holds a nul byte at this position.
    UnexpectedNul(usize),
    /// Text handed back by the backend is not valid UTF-8.
    InvalidUTF8CString,
    /// A string is not valid UTF-8.
    InvalidUTF8,
    /// A string is not an integer.
    NotInteger,
}

impl Error {
    /// Return the error for a backend call that returned status `number`,
    /// described by the backend as `description`.
    pub fn from_lm_sensors(operation: &'static str, number: i32, description: String) -> (r: Error)
        requires
            number != i32::MIN,
        ensures
            r == (Error::LMSensors {
                operation,
                number: (if number < 0 { -number } else { number as int }) as i32,
                description,
            }),
    {
        let magnitude: i32 = if number < 0 { -number } else { number };
        Error::LMSensors { operation, number: magnitude, description }
    }

    /// Return an input/output class error of an operation.
    pub fn from_io(operation: &'static str, kind: IoErrorKind) -> (r: Error)
        ensures
            r == (Error::IO { operation, kind }),
    {
        Error::IO { operation, kind }
    }

    /// Return an input/output class error of an operation on a path.
    pub fn from_io_path(operation: &'static str, path: Vec<u8>, kind: IoErrorKind) -> (r: Error)
        ensures
            r == (Error::IO1Path { operation, path, kind }),
    {
        Error::IO1Path { operation, path, kind }
    }
}

/// Return the outcome of a backend call from the status it returned, which
/// the backend describes as `description`: zero is success, any other status
/// is an error of `operation`.
pub fn status_result(operation: &'static str, status: i32, description: String) -> (r: Result<
    (),
    Error,
>)
    requires
        status != i32::MIN,
    ensures
        status == 0 ==> r is Ok,
        status != 0 ==> r == Err::<(), Error>(
            Error::LMSensors {
                operation,
                number: (if status < 0 { -status } else { status as int }) as i32,
                description,
            },
        ),
{
    if status == 0 {
        Ok(())
    } else {
        Err(Error::from_lm_sensors(operation, status, description))
    }
}

/// Return the record that a backend lookup found, or an error of
/// `operation` saying it was not found.
pub fn found_or_not_found<T>(operation: &'static str, record: Option<T>) -> (r: Result<T, Error>)
    ensures
        record matches Some(x) ==> r == Ok::<T, Error>(x),
        record is None ==> r == Err::<T, Error>(
            Error::IO { operation, kind: IoErrorKind::NotFound },
        ),
{
    match record {
        Some(x) => Ok(x),
        None => Err(Error::from_io(operation, IoErrorKind::NotFound)),
    }
}

/// Return `text` followed by a terminating nul, as the backend takes text;
/// text that holds a nul byte is refused, with the position of the first.
pub fn nul_terminated(text: &[u8]) -> (r: Result<Vec<u8>, Error>)
    ensures
        (forall|j: int| 0 <= j < text@.len() ==> text@[j] != 0) ==> (r matches Ok(v) && v@
            == text@.push(0u8)),
        (exists|j: int| 0 <= j < text@.len() && text@[j] == 0) ==> (r matches Err(
            Error::UnexpectedNul(p),
        ) && p < text@.len() && text@[p as int] == 0 && forall|j: int|
            0 <= j < p ==> text@[j] != 0),
{
    let mut out: Vec<u8> = Vec::new();
    let mut i: usize = 0;
    while i < text.len()
        invariant
            i <= text@.len(),
            out@ == text@.subrange(0, i as int),
            forall|j: int| 0 <= j < i ==> text@[j] != 0,
        decreases text@.len() - i,
    {
        if text[i] == 0 {
            return Err(Error::UnexpectedNul(i));
        }
        out.push(text[i]);
        i = i + 1;
        assert(out@ =~= text@.subrange(0, i as int));
    }
    out.push(0u8);
    assert(out@ =~= text@.push(0u8));
    Ok(out)
}

/// Listener for errors reported by the sensors backend.
pub trait Listener {
    /// Called when a configuration parsing error happens, with the message,
    /// the configuration file's name if the backend gave one, and a line
    /// number of at least 1.
    fn on_lm_sensors_config_error(&self, error: &str, file_name: Option<&[u8]>, line_number: usize);

    /// Called when a fatal error happens, *e.g.,* an out of memory situation.
    /// The process is aborted after this function returns.
    fn on_lm_sensors_fatal_error(&self, error: &str, procedure: &str);
}

/// Return the line number reported to a listener for a configuration error
/// that the backend placed at line `line_no`: lines before the first are
/// reported as the first.
pub fn config_error_line(line_no: i32) -> (r: usize)
    ensures
        r == if line_no < 1 { 1 } else { line_no as int },
{
    if line_no < 1 {
        1
    } else {
        line_no as usize
    }
}

/// Return the text of a message, or `default` where the backend gave none.
pub fn text_or<'a>(text: Option<&'a str>, default: &'a str) -> (r: &'a str)
    ensures
        text matches Some(t) ==> r == t,
        text is None ==> r == default,
{
    match text {
        Some(t) => t,
        None => default,
    }
}

/// Return the text shown for a name or label: the name itself, or the
/// placeholder where looking it up failed.
pub fn display_text(name: Option<String>) -> (r: String)
    ensures
        name matches Some(n) ==> r@ == n@,
        name is None ==> r@ == PLACEHOLDER@,
{
    match name {
        Some(n) => n,
        None => PLACEHOLDER.to_owned(),
    }
}

} // verus!
