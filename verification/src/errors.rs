//! The error taxonomy of the request client and its textual form.

use vstd::prelude::*;
use vstd::string::*;

verus! {

/// Everything that can go wrong while a request is dispatched.
#[derive(Debug, PartialEq, Eq)]
pub enum Error {
    /// Catch-all for conditions that have no kind of their own.
    Generic(String),
    /// The transport could not complete the exchange; holds the transport's
    /// own description of the failure.
    TransportFailure(String),
    /// The configured method is neither `GET` nor `POST`.
    InvalidMethod,
    /// The user cancelled the operation.
    OperationCancelled(String),
}

pub type AppResult<T> = Result<T, Error>;

/// Mathematical model of an [`Error`].
pub ghost enum ErrorView {
    Generic(Seq<char>),
    TransportFailure(Seq<char>),
    InvalidMethod,
    OperationCancelled(Seq<char>),
}

impl View for Error {
    type V = ErrorView;

    open spec fn view(&self) -> ErrorView {
        match self {
            Error::Generic(m) => ErrorView::Generic(m@),
            Error::TransportFailure(m) => ErrorView::TransportFailure(m@),
            Error::InvalidMethod => ErrorView::InvalidMethod,
            Error::OperationCancelled(m) => ErrorView::OperationCancelled(m@),
        }
    }
}

impl ErrorView {
    /// The text an error is reported as.
    pub open spec fn text(self) -> Seq<char> {
        match self {
            ErrorView::Generic(m) => "Generic error: "@ + m,
            ErrorView::TransportFailure(m) => m,
            ErrorView::InvalidMethod => "Invalid method"@,
            ErrorView::OperationCancelled(m) => "Operation Canceled error: "@ + m,
        }
    }
}

/// What the host is to do about the outcome of an operation.
#[derive(Debug, PartialEq, Eq)]
pub enum Handling {
    /// The operation succeeded: there is nothing to report.
    Proceed,
    /// Tell the user, on the output stream, that the operation was cancelled,
    /// and go on.
    Notice(String),
    /// Report the message on the error stream and end the process with the
    /// given exit code.
    Abort { message: String, exit_code: i32 },
}

/// Mathematical model of a [`Handling`].
pub ghost enum HandlingView {
    Proceed,
    Notice(Seq<char>),
    Abort { message: Seq<char>, exit_code: i32 },
}

impl View for Handling {
    type V = HandlingView;

    open spec fn view(&self) -> HandlingView {
        match self {
            Handling::Proceed => HandlingView::Proceed,
            Handling::Notice(text) => HandlingView::Notice(text@),
            Handling::Abort { message, exit_code } => HandlingView::Abort {
                message: message@,
                exit_code: *exit_code,
            },
        }
    }
}

/// How an outcome is handled: success passes, a cancellation is announced,
/// and every other error ends the process with exit code 1 after its bare
/// message has been reported.
pub open spec fn handling_of(outcome: Result<(), ErrorView>) -> HandlingView {
    match outcome {
        Ok(_) => HandlingView::Proceed,
        Err(ErrorView::OperationCancelled(m)) => HandlingView::Notice("Operation cancelled: "@ + m),
        Err(ErrorView::Generic(m)) => HandlingView::Abort { message: m, exit_code: 1 },
        Err(e) => HandlingView::Abort { message: e.text(), exit_code: 1 },
    }
}

/// The model of the outcome of an operation that yields nothing.
pub open spec fn unit_outcome_view(outcome: AppResult<()>) -> Result<(), ErrorView> {
    match outcome {
        Ok(_) => Ok(()),
        Err(e) => Err(e@),
    }
}

/// Decides how the outcome of an operation is handled. The host prints and
/// exits as the result says.
pub fn handle(result: AppResult<()>) -> (handling: Handling)
    ensures
        handling@ == handling_of(unit_outcome_view(result)),
{
    match result {
        Ok(_) => Handling::Proceed,
        Err(Error::OperationCancelled(m)) => Handling::Notice(
            String::from_str("Operation cancelled: ").concat(m.as_str()),
        ),
        Err(Error::Generic(m)) => Handling::Abort { message: m, exit_code: 1 },
        Err(e) => Handling::Abort { message: e.message(), exit_code: 1 },
    }
}

impl Error {
    /// A generic error with the given message.
    pub fn new(message: String) -> (e: Self)
        ensures
            e@ == ErrorView::Generic(message@),
    {
        Error::Generic(message)
    }

    /// A cancellation with the given message.
    pub fn op_cancelled(message: &str) -> (e: Self)
        ensures
            e@ == ErrorView::OperationCancelled(message@),
    {
        Error::OperationCancelled(String::from_str(message))
    }

    /// The error as text.
    pub fn message(&self) -> (text: String)
        ensures
            text@ == self@.text(),
    {
        match self {
            Error::Generic(m) => String::from_str("Generic error: ").concat(m.as_str()),
            Error::TransportFailure(m) => m.clone(),
            Error::InvalidMethod => String::from_str("Invalid method"),
            Error::OperationCancelled(m) => String::from_str("Operation Canceled error: ").concat(
                m.as_str(),
            ),
        }
    }
}

} // verus!
