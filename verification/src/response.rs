//! Server replies and transport-level events as the core sees them.
//!
//! The transport collaborator owns the wire: it splits reply lines and
//! reports read failures.  The core receives that stream as a queue of
//! [`ScriptItem`] values held by the transport handle.

use vstd::prelude::*;

verus! {

/// One SMTP reply: the three-digit code and the text lines, one entry per
/// reply line, already split by the transport collaborator.
pub struct Response {
    pub code: u16,
    pub lines: Vec<Vec<u8>>,
}

/// Mathematical image of a [`Response`].
#[verifier::ext_equal]
pub struct ResponseModel {
    pub code: u16,
    pub lines: Seq<Seq<u8>>,
}

impl ResponseModel {
    /// A reply is positive when its code is a 2xx or 3xx code.
    pub open spec fn positive(self) -> bool {
        crate::positive_code(self.code)
    }
}

impl View for Response {
    type V = ResponseModel;

    open spec fn view(&self) -> ResponseModel {
        ResponseModel { code: self.code, lines: self.lines@.map_values(|l: Vec<u8>| l@) }
    }
}

impl Response {
    /// Whether the reply code is a success (2xx) or intermediate (3xx) code.
    pub fn is_positive(&self) -> (r: bool)
        ensures
            r == self@.positive(),
    {
        200 <= self.code && self.code < 400
    }
}

/// One event delivered by the transport: a parsed reply, a line that could
/// not be parsed as a reply, or a transport-level read failure.
pub enum ScriptItem {
    Reply(Response),
    Garbled,
    Fault,
}

/// Mathematical image of a [`ScriptItem`].
#[verifier::ext_equal]
pub enum EventModel {
    Reply(ResponseModel),
    Garbled,
    Fault,
}

impl View for ScriptItem {
    type V = EventModel;

    open spec fn view(&self) -> EventModel {
        match self {
            ScriptItem::Reply(resp) => EventModel::Reply(resp@),
            ScriptItem::Garbled => EventModel::Garbled,
            ScriptItem::Fault => EventModel::Fault,
        }
    }
}

/// A transport-level failure: the handle can no longer be used for the
/// exchange, and the connection value is surrendered with it.
#[derive(Debug)]
pub struct TransportError;

/// A protocol-logic failure: the server answered, but not usefully.
pub enum LogicError {
    /// The server rejected the command with a 4xx/5xx reply.
    Negative(Response),
    /// The server's answer could not be parsed as a reply.
    Malformed,
    /// The server never advertised STARTTLS, so the upgrade was refused
    /// before anything was sent.
    MissingStartTls,
}

/// Mathematical image of a [`LogicError`].
#[verifier::ext_equal]
pub enum LogicModel {
    Negative(ResponseModel),
    Malformed,
    MissingStartTls,
}

impl View for LogicError {
    type V = LogicModel;

    open spec fn view(&self) -> LogicModel {
        match self {
            LogicError::Negative(resp) => LogicModel::Negative(resp@),
            LogicError::Malformed => LogicModel::Malformed,
            LogicError::MissingStartTls => LogicModel::MissingStartTls,
        }
    }
}

/// What a single command exchange yields once the transport survived it.
pub type SmtpResult = Result<Response, LogicError>;

/// The establishment pipeline's failure taxonomy, tagged by stage.
pub enum ConnectingFailed {
    /// The transport failed at some stage; nothing useful was heard back.
    Io(TransportError),
    /// A negative or malformed answer during greeting, EHLO or STARTTLS.
    Setup(LogicError),
    /// A negative or malformed answer to the authentication command.
    Auth(LogicError),
}

} // verus!
