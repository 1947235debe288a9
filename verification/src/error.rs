//! Why an operation is refused, and the message that says so.
use vstd::prelude::*;
use vstd::string::*;

verus! {

/// The operations whose promise can be rejected.
#[derive(Debug, Clone, Copy, PartialEq, Eq, Structural)]
pub enum Operation {
    Bind,
    Send,
    SendBuffer,
    Recv,
}

/// Why an operation was rejected.
#[derive(Debug)]
pub enum Reason {
    /// No open socket has this handle.
    InvalidHandle,
    /// `bind` was called on a socket that is bound.
    AlreadyBound,
    /// The socket was never bound.
    NotBound,
    /// The socket was closed while its `bind` was under way.
    VanishedMidBind,
    /// The socket was closed while its `recv` was waiting.
    Closed,
    /// The text to send is absent or is not UTF-8.
    InvalidMessage,
    /// The buffer to send is absent.
    InvalidBuffer,
    /// The destination address is absent, empty or not UTF-8.
    InvalidAddress,
    /// No buffer could be had for a received datagram.
    BufferAllocationFailed,
    /// The operating system refused; the text is what it reported.
    System(String),
}

/// A refused operation.
#[derive(Debug)]
pub struct Rejection {
    pub operation: Operation,
    pub reason: Reason,
}

impl Operation {
    /// The name of the operation as it appears in messages.
    pub open spec fn spec_name(self) -> Seq<char> {
        match self {
            Operation::Bind => "bind"@,
            Operation::Send => "send"@,
            Operation::SendBuffer => "sendBuffer"@,
            Operation::Recv => "recv"@,
        }
    }

    /// The name of the operation as it appears in messages.
    pub fn name(self) -> (text: &'static str)
        ensures
            text@ == self.spec_name(),
    {
        match self {
            Operation::Bind => "bind",
            Operation::Send => "send",
            Operation::SendBuffer => "sendBuffer",
            Operation::Recv => "recv",
        }
    }
}

impl Reason {
    /// The part of the message that follows the operation.
    pub open spec fn spec_text(self) -> Seq<char> {
        match self {
            Reason::InvalidHandle => "invalid socket handle"@,
            Reason::AlreadyBound => "socket already bound"@,
            Reason::NotBound => "socket not bound"@,
            Reason::VanishedMidBind => "socket vanished mid-bind"@,
            Reason::Closed => "socket closed"@,
            Reason::InvalidMessage => "invalid msg"@,
            Reason::InvalidBuffer => "invalid buffer"@,
            Reason::InvalidAddress => "invalid address"@,
            Reason::BufferAllocationFailed => "buffer allocation failed"@,
            Reason::System(text) => text@,
        }
    }

    /// The part of the message that follows the operation.
    pub fn text(&self) -> (text: &str)
        ensures
            text@ == self.spec_text(),
    {
        match self {
            Reason::InvalidHandle => "invalid socket handle",
            Reason::AlreadyBound => "socket already bound",
            Reason::NotBound => "socket not bound",
            Reason::VanishedMidBind => "socket vanished mid-bind",
            Reason::Closed => "socket closed",
            Reason::InvalidMessage => "invalid msg",
            Reason::InvalidBuffer => "invalid buffer",
            Reason::InvalidAddress => "invalid address",
            Reason::BufferAllocationFailed => "buffer allocation failed",
            Reason::System(text) => text.as_str(),
        }
    }
}

impl Rejection {
    /// The prefix that every message of `operation` has.
    pub open spec fn prefix(operation: Operation) -> Seq<char> {
        "dgram "@ + operation.spec_name() + ": "@
    }

    /// The message that the promise is rejected with.
    pub open spec fn spec_message(self) -> Seq<char> {
        Self::prefix(self.operation) + self.reason.spec_text()
    }

    /// A rejection of `operation` for `reason`.
    pub fn new(operation: Operation, reason: Reason) -> (rejection: Self)
        ensures
            rejection.operation == operation,
            rejection.reason == reason,
    {
        Rejection { operation, reason }
    }

    /// The message that the promise is rejected with.
    pub fn message(&self) -> (text: String)
        ensures
            text@ == self.spec_message(),
    {
        let mut text = "dgram ".to_owned();
        text.append(self.operation.name());
        text.append(": ");
        text.append(self.reason.text());
        text
    }
}

} // verus!
