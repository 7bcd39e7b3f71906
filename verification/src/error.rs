//! The errors that this library raises itself.

use vstd::prelude::*;

verus! {

/// What went wrong. The variants carry the names of the matching
/// `std::io::ErrorKind` values.
#[derive(Clone, Copy, Debug, PartialEq, Eq, Structural)]
pub enum ErrorKind {
    /// A parameter or a lookup result could not be used.
    InvalidInput,
    /// Buffered bytes stand in the way of the operation.
    InvalidData,
    /// The idle timer of a UDP stream ran out.
    TimedOut,
    /// The channel behind a stream or a listener is closed.
    BrokenPipe,
    /// A datagram left the socket truncated.
    WriteZero,
}

/// An error raised by this library: a kind and a message.
#[derive(Debug)]
pub struct NetError {
    pub kind: ErrorKind,
    pub message: String,
}

impl NetError {
    /// The error has this kind and this message.
    pub open spec fn says(self, kind: ErrorKind, message: Seq<char>) -> bool {
        self.kind == kind && self.message@ == message
    }

    /// An error with a fixed message.
    pub fn new(kind: ErrorKind, message: &str) -> (e: NetError)
        ensures
            e.says(kind, message@),
            e.kind == kind,
            e.message@ == message@,
    {
        NetError { kind, message: message.to_owned() }
    }

    /// An error whose message ends in the text of its cause.
    pub fn with_detail(kind: ErrorKind, message: &str, detail: &str) -> (e: NetError)
        ensures
            e.says(kind, message@ + detail@),
            e.kind == kind,
            e.message@ == message@ + detail@,
    {
        NetError { kind, message: message.to_owned().concat(detail) }
    }
}

/// Why an operation failed.
#[derive(Debug)]
pub enum Failure<E> {
    /// An error raised here.
    Raised(NetError),
    /// An error raised here, of this kind, whose cause and text is an error that
    /// came from outside.
    Caused { kind: ErrorKind, cause: E },
    /// An error that came from outside, passed on as it is.
    Passed(E),
}

impl<E> Failure<E> {
    /// The failure was raised here, with this kind and this message.
    pub open spec fn raised(self, kind: ErrorKind, message: Seq<char>) -> bool {
        self matches Failure::Raised(e) && e.says(kind, message)
    }
}

/// What an error says is its kind and its whole message: two errors that say the
/// same have both in common.
pub proof fn an_error_says_its_kind_and_message(e: NetError, kind: ErrorKind, message: Seq<char>)
    ensures
        e.says(e.kind, e.message@),
        e.says(kind, message) ==> e.kind == kind && e.message@ == message,
{
}

/// A failure is raised with a kind and a message where it holds an error of that
/// kind and that message; a failure that came from outside is never raised.
pub proof fn a_raised_failure_holds_its_error<E>(
    failure: Failure<E>,
    e: NetError,
    kind: ErrorKind,
    message: Seq<char>,
)
    ensures
        Failure::<E>::Raised(e).raised(e.kind, e.message@),
        Failure::<E>::Raised(e).raised(kind, message) ==> e.kind == kind && e.message@ == message,
        failure.raised(kind, message) ==> failure is Raised,
{
}

} // verus!
