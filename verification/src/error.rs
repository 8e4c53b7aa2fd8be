use vstd::prelude::*;

verus! {

/// The error codes of the Maelstrom protocol. On the wire each is a `u16`,
/// given by [`ErrorCode::code`].
#[derive(Debug, Clone, Copy, PartialEq, Eq, Structural)]
pub enum ErrorCode {
    /// Indicates that the requested operation could not be completed within a timeout.
    Timeout,
    /// Thrown when a client sends an RPC request to a node which does not exist.
    NodeNotFound,
    /// Use this error to indicate that a requested operation is not supported.
    NotSupported,
    /// Indicates that the operation definitely cannot be performed at this time.
    TemporarilyUnavailable,
    /// The client's request did not conform to the server's expectations.
    MalformedRequest,
    /// Indicates that some kind of general, indefinite error occurred.
    Crash,
    /// Indicates that some kind of general, definite error occurred.
    Abort,
    /// The client requested an operation on a key which does not exist.
    KeyDoesNotExist,
    /// The client requested the creation of a key which already exists.
    KeyAlreadyExists,
    /// The requested operation expected some conditions to hold, and those conditions were not met.
    PreconditionFailed,
    /// The requested transaction has been aborted because of a conflict.
    TxnConflict,
}

impl ErrorCode {
    /// The numeric code that stands for this error on the wire.
    pub open spec fn wire_code(self) -> u16 {
        match self {
            ErrorCode::Timeout => 0,
            ErrorCode::NodeNotFound => 1,
            ErrorCode::NotSupported => 10,
            ErrorCode::TemporarilyUnavailable => 11,
            ErrorCode::MalformedRequest => 12,
            ErrorCode::Crash => 13,
            ErrorCode::Abort => 14,
            ErrorCode::KeyDoesNotExist => 20,
            ErrorCode::KeyAlreadyExists => 21,
            ErrorCode::PreconditionFailed => 22,
            ErrorCode::TxnConflict => 30,
        }
    }

    /// The error that a numeric wire code stands for, if any.
    pub open spec fn from_wire_code(n: u16) -> Option<ErrorCode> {
        if n == 0 {
            Some(ErrorCode::Timeout)
        } else if n == 1 {
            Some(ErrorCode::NodeNotFound)
        } else if n == 10 {
            Some(ErrorCode::NotSupported)
        } else if n == 11 {
            Some(ErrorCode::TemporarilyUnavailable)
        } else if n == 12 {
            Some(ErrorCode::MalformedRequest)
        } else if n == 13 {
            Some(ErrorCode::Crash)
        } else if n == 14 {
            Some(ErrorCode::Abort)
        } else if n == 20 {
            Some(ErrorCode::KeyDoesNotExist)
        } else if n == 21 {
            Some(ErrorCode::KeyAlreadyExists)
        } else if n == 22 {
            Some(ErrorCode::PreconditionFailed)
        } else if n == 30 {
            Some(ErrorCode::TxnConflict)
        } else {
            None
        }
    }

    /// An error is definite when the operation certainly did not take place;
    /// a timeout or a crash leaves that open.
    pub open spec fn definite(self) -> bool {
        !(self is Timeout || self is Crash)
    }

    /// The numeric code of this error on the wire.
    pub fn code(&self) -> (n: u16)
        ensures
            n == self.wire_code(),
    {
        match self {
            ErrorCode::Timeout => 0,
            ErrorCode::NodeNotFound => 1,
            ErrorCode::NotSupported => 10,
            ErrorCode::TemporarilyUnavailable => 11,
            ErrorCode::MalformedRequest => 12,
            ErrorCode::Crash => 13,
            ErrorCode::Abort => 14,
            ErrorCode::KeyDoesNotExist => 20,
            ErrorCode::KeyAlreadyExists => 21,
            ErrorCode::PreconditionFailed => 22,
            ErrorCode::TxnConflict => 30,
        }
    }

    /// The error for a numeric wire code; `None` for a number that names no error.
    pub fn from_code(n: u16) -> (c: Option<ErrorCode>)
        ensures
            c == Self::from_wire_code(n),
    {
        match n {
            0 => Some(ErrorCode::Timeout),
            1 => Some(ErrorCode::NodeNotFound),
            10 => Some(ErrorCode::NotSupported),
            11 => Some(ErrorCode::TemporarilyUnavailable),
            12 => Some(ErrorCode::MalformedRequest),
            13 => Some(ErrorCode::Crash),
            14 => Some(ErrorCode::Abort),
            20 => Some(ErrorCode::KeyDoesNotExist),
            21 => Some(ErrorCode::KeyAlreadyExists),
            22 => Some(ErrorCode::PreconditionFailed),
            30 => Some(ErrorCode::TxnConflict),
            _ => None,
        }
    }

    /// Whether the error is definite or not.
    pub fn is_definite(&self) -> (b: bool)
        ensures
            b == self.definite(),
    {
        match self {
            ErrorCode::Timeout | ErrorCode::Crash => false,
            _ => true,
        }
    }
}

/// Decoding the wire code of an error gives that error back.
pub proof fn lemma_code_round_trip(c: ErrorCode)
    ensures
        ErrorCode::from_wire_code(c.wire_code()) == Some(c),
{
}

/// A wire code that decodes to an error is that error's code: decoding is
/// the exact inverse of encoding, so no two errors share a code.
pub proof fn lemma_decode_inverts_encode(n: u16)
    ensures
        ErrorCode::from_wire_code(n) matches Some(c) ==> c.wire_code() == n,
{
}

/// Two errors with the same wire code are the same error.
pub proof fn lemma_code_injective(a: ErrorCode, b: ErrorCode)
    ensures
        a.wire_code() == b.wire_code() ==> a == b,
{
    lemma_code_round_trip(a);
    lemma_code_round_trip(b);
}

/// What an [`Error`] holds, as plain values.
pub struct ErrorView {
    pub in_reply_to: u64,
    pub code: ErrorCode,
    pub text: Seq<char>,
}

/// An error reply body: the request it answers, its code and a text.
#[derive(Debug)]
pub struct Error {
    in_reply_to: u64,
    code: ErrorCode,
    text: String,
}

impl View for Error {
    type V = ErrorView;

    closed spec fn view(&self) -> ErrorView {
        ErrorView { in_reply_to: self.in_reply_to, code: self.code, text: self.text@ }
    }
}

impl Error {
    /// An error with the given code and text, answering message 1.
    pub fn new(code: ErrorCode, message: String) -> (e: Self)
        ensures
            e@ == (ErrorView { in_reply_to: 1, code, text: message@ }),
    {
        Self { in_reply_to: 1, code, text: message }
    }

    /// The id of the message this error answers.
    pub fn in_reply_to(&self) -> (id: u64)
        ensures
            id == self@.in_reply_to,
    {
        self.in_reply_to
    }

    /// The error's code.
    pub fn code(&self) -> (c: ErrorCode)
        ensures
            c == self@.code,
    {
        self.code
    }

    /// The error's text.
    pub fn text(&self) -> (t: String)
        ensures
            t@ == self@.text,
    {
        self.text.clone()
    }
}

impl From<ErrorCode> for Error {
    /// An error with the given code and an empty text.
    fn from(code: ErrorCode) -> (e: Self)
        ensures
            e@ == (ErrorView { in_reply_to: 1, code, text: Seq::empty() }),
    {
        Error::new(code, String::new())
    }
}

// `from` states its result itself, over the error's view: a spec-level
// `from_spec` would have to name one exact `String`, and two strings are
// only known to agree by their views.
impl vstd::std_specs::convert::FromSpecImpl<ErrorCode> for Error {
    open spec fn obeys_from_spec() -> bool {
        false
    }

    open spec fn from_spec(v: ErrorCode) -> Self {
        arbitrary()
    }
}

} // verus!
