use vstd::prelude::*;

use crate::status::VzdStatus;

verus! {

/// Errors surfaced from the ViZDoom C ABI.
#[derive(Debug)]
pub enum Error {
    /// A handle or argument passed across FFI was invalid (e.g. a null pointer
    /// or a string containing an interior NUL byte).
    InvalidArgument(String),
    /// The operation requires a running game but the game was not running.
    NotRunning,
    /// A config or resource file could not be found.
    FileNotFound(String),
    /// A generic ViZDoom/engine error.
    Engine(String),
}

/// The mathematical value of an [`Error`]: its variant and its message text.
pub enum ErrorView {
    InvalidArgument(Seq<char>),
    NotRunning,
    FileNotFound(Seq<char>),
    Engine(Seq<char>),
}

impl View for Error {
    type V = ErrorView;

    open spec fn view(&self) -> ErrorView {
        match self {
            Error::InvalidArgument(m) => ErrorView::InvalidArgument(m@),
            Error::NotRunning => ErrorView::NotRunning,
            Error::FileNotFound(m) => ErrorView::FileNotFound(m@),
            Error::Engine(m) => ErrorView::Engine(m@),
        }
    }
}

/// The error that a status code stands for, given the message the C ABI
/// recorded with it.
pub open spec fn status_error(status: VzdStatus, message: Seq<char>) -> ErrorView {
    match status {
        VzdStatus::Success => ErrorView::Engine("unexpected OK status converted to error"@),
        VzdStatus::InvalidArgument => ErrorView::InvalidArgument(message),
        VzdStatus::NotRunning => ErrorView::NotRunning,
        VzdStatus::FileNotFound => ErrorView::FileNotFound(message),
        VzdStatus::Error => ErrorView::Engine(message),
    }
}

/// The result of a call that answered `status`: `value` when the status is
/// `Ok`, else the error the status stands for.
pub open spec fn outcome<T>(status: VzdStatus, message: Seq<char>, value: T) -> Result<T, ErrorView> {
    if status == VzdStatus::Success {
        Ok(value)
    } else {
        Err(status_error(status, message))
    }
}

/// A result with its error taken by its view.
pub open spec fn result_view<T>(r: Result<T, Error>) -> Result<T, ErrorView> {
    match r {
        Ok(v) => Ok(v),
        Err(e) => Err(e@),
    }
}

impl Error {
    /// Builds an [`Error`] from a non-OK status, attaching the message the C
    /// ABI recorded with it.
    pub fn from_status(status: VzdStatus, message: String) -> (e: Error)
        ensures
            e@ == status_error(status, message@),
    {
        match status {
            VzdStatus::Success => Error::Engine(String::from_str("unexpected OK status converted to error")),
            VzdStatus::InvalidArgument => Error::InvalidArgument(message),
            VzdStatus::NotRunning => Error::NotRunning,
            VzdStatus::FileNotFound => Error::FileNotFound(message),
            VzdStatus::Error => Error::Engine(message),
        }
    }
}

impl ErrorView {
    /// The text the error displays.
    pub open spec fn display(self) -> Seq<char> {
        match self {
            ErrorView::InvalidArgument(m) => "invalid argument: "@ + m,
            ErrorView::NotRunning => "game is not running"@,
            ErrorView::FileNotFound(m) => "file not found: "@ + m,
            ErrorView::Engine(m) => "vizdoom error: "@ + m,
        }
    }
}

impl Error {
    /// The text the error displays (what `to_string` gives on the error).
    pub fn to_display_string(&self) -> (s: String)
        ensures
            s@ == self@.display(),
    {
        match self {
            Error::InvalidArgument(m) => String::from_str("invalid argument: ").concat(m.as_str()),
            Error::NotRunning => String::from_str("game is not running"),
            Error::FileNotFound(m) => String::from_str("file not found: ").concat(m.as_str()),
            Error::Engine(m) => String::from_str("vizdoom error: ").concat(m.as_str()),
        }
    }
}

/// Converts a status into `Result<()>`.
pub fn check(status: VzdStatus, message: String) -> (r: Result<(), Error>)
    ensures
        result_view(r) == outcome(status, message@, ()),
{
    match status {
        VzdStatus::Success => Ok(()),
        other => Err(Error::from_status(other, message)),
    }
}

/// A call fails exactly when its status is not `Success`, and then with the
/// error [`Error::from_status`] builds for that status: `InvalidArgument`,
/// `FileNotFound` and `Error` carry the recorded message, `NotRunning` none.
pub proof fn lemma_outcome_fails_exactly_on_error_status<T>(status: VzdStatus, message: Seq<char>, value: T)
    ensures
        outcome(status, message, value) is Ok <==> status == VzdStatus::Success,
        status == VzdStatus::Success ==> outcome(status, message, value) == Ok::<T, ErrorView>(value),
        status != VzdStatus::Success ==> outcome(status, message, value) == Err::<T, ErrorView>(status_error(status, message)),
        status == VzdStatus::NotRunning ==> status_error(status, message) == ErrorView::NotRunning,
        status == VzdStatus::InvalidArgument ==> status_error(status, message) == ErrorView::InvalidArgument(message),
        status == VzdStatus::FileNotFound ==> status_error(status, message) == ErrorView::FileNotFound(message),
        status == VzdStatus::Error ==> status_error(status, message) == ErrorView::Engine(message),
{
}

} // verus!
