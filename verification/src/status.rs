//! The rejections that this node answers a peer with.

use vstd::prelude::*;

verus! {

/// The class of a rejection, as the transport reports it to the peer.
#[derive(Clone, Copy, Debug, PartialEq, Eq, Structural)]
pub enum Code {
    /// The peer did not prove who it is.
    Unauthenticated,
    /// The stream broke a rule of the protocol, or this node failed.
    Internal,
    /// A backend that the call depends on is not reachable.
    Unavailable,
    /// Nothing was there to act on.
    NotFound,
}

/// Why a stream or a call is turned away.
#[derive(Clone, Copy, Debug, PartialEq, Eq, Structural)]
pub enum Rejection {
    /// The call came without an authorization entry.
    MissingToken,
    /// The authorization entry was not readable text.
    UnreadableToken,
    /// The first message of a stream was not a logon.
    LogonExpected,
    /// The token does not belong to the identifier that the logon names.
    UnknownAction,
    /// A logon came on a stream that was logged on already.
    AlreadyLoggedOn,
    /// The subscription for a logged-on producer could not be opened.
    SubscriptionFailed,
    /// The backend that a relayed call goes to is not connected.
    BackendNotReady,
    /// A stream ended before it sent a request.
    NoRequest,
    /// The caller is not among the producers that may change their
    /// configuration.
    NotRegistered,
    /// Reading a stream failed.
    StreamBroken,
}

impl Rejection {
    /// The class under which the rejection is reported.
    pub open spec fn spec_code(self) -> Code {
        match self {
            Rejection::MissingToken => Code::Unauthenticated,
            Rejection::UnreadableToken => Code::Internal,
            Rejection::LogonExpected => Code::Internal,
            Rejection::UnknownAction => Code::Unauthenticated,
            Rejection::AlreadyLoggedOn => Code::Internal,
            Rejection::SubscriptionFailed => Code::Internal,
            Rejection::BackendNotReady => Code::Unavailable,
            Rejection::NoRequest => Code::NotFound,
            Rejection::NotRegistered => Code::Unauthenticated,
            Rejection::StreamBroken => Code::Internal,
        }
    }

    /// Whether the rejection says that the peer is not who it claims to be.
    pub open spec fn is_authentication_error(self) -> bool {
        self.spec_code() == Code::Unauthenticated
    }

    /// The class under which the rejection is reported.
    #[verifier::when_used_as_spec(spec_code)]
    pub fn code(self) -> (code: Code)
        ensures
            code == self.spec_code(),
    {
        match self {
            Rejection::MissingToken => Code::Unauthenticated,
            Rejection::UnreadableToken => Code::Internal,
            Rejection::LogonExpected => Code::Internal,
            Rejection::UnknownAction => Code::Unauthenticated,
            Rejection::AlreadyLoggedOn => Code::Internal,
            Rejection::SubscriptionFailed => Code::Internal,
            Rejection::BackendNotReady => Code::Unavailable,
            Rejection::NoRequest => Code::NotFound,
            Rejection::NotRegistered => Code::Unauthenticated,
            Rejection::StreamBroken => Code::Internal,
        }
    }

    /// The text that the peer is given.
    pub fn message(self) -> (text: &'static str)
        ensures
            text@ == self.spec_message(),
    {
        match self {
            Rejection::MissingToken => "missing authorization token",
            Rejection::UnreadableToken => "cannot read authorization header",
            Rejection::LogonExpected => "First request needs to be a 'ActionLogonRequest'",
            Rejection::UnknownAction => "token not matching to action identifier",
            Rejection::AlreadyLoggedOn => "Already logged on. Send 'Logon' request only once",
            Rejection::SubscriptionFailed => "could not register action into execution loop",
            Rejection::BackendNotReady => "service unavailable, dependent backend not ready",
            Rejection::NoRequest => "No valid request received",
            Rejection::NotRegistered => "",
            Rejection::StreamBroken => "Error receiving stream",
        }
    }

    /// The text that the peer is given.
    pub open spec fn spec_message(self) -> Seq<char> {
        match self {
            Rejection::MissingToken => "missing authorization token"@,
            Rejection::UnreadableToken => "cannot read authorization header"@,
            Rejection::LogonExpected => "First request needs to be a 'ActionLogonRequest'"@,
            Rejection::UnknownAction => "token not matching to action identifier"@,
            Rejection::AlreadyLoggedOn => "Already logged on. Send 'Logon' request only once"@,
            Rejection::SubscriptionFailed => "could not register action into execution loop"@,
            Rejection::BackendNotReady => "service unavailable, dependent backend not ready"@,
            Rejection::NoRequest => "No valid request received"@,
            Rejection::NotRegistered => ""@,
            Rejection::StreamBroken => "Error receiving stream"@,
        }
    }
}

} // verus!
