//! What a handler answers: a small closed set of failures, each with its
//! status code and its fixed message, so that no upstream detail reaches the
//! caller.

use vstd::prelude::*;

verus! {

/// The broad kind of a failure, which decides its status code.
#[derive(Debug, Clone, Copy, PartialEq, Eq, Structural)]
pub enum ErrorKind {
    BadRequest,
    UpstreamFailure,
    InternalFailure,
}

pub open spec fn kind_status(k: ErrorKind) -> u16 {
    match k {
        ErrorKind::BadRequest => 400,
        ErrorKind::UpstreamFailure => 500,
        ErrorKind::InternalFailure => 500,
    }
}

impl ErrorKind {
    pub fn status(&self) -> (r: u16)
        ensures
            r == kind_status(*self),
    {
        match self {
            ErrorKind::BadRequest => 400,
            ErrorKind::UpstreamFailure => 500,
            ErrorKind::InternalFailure => 500,
        }
    }
}

/// Every way in which a request can fail.
#[derive(Debug, Clone, Copy, PartialEq, Eq, Structural)]
pub enum Failure {
    /// The auth callback came without a code.
    NoCode,
    /// The platform answered the code exchange with `ok: false`.
    InvalidCode,
    /// The code exchange could not be made or its answer not read.
    TokenExchangeFailed,
    /// The profile could not be fetched.
    ProfileFailed,
    /// The profile answer held no display name.
    NameMissing,
    /// The token could not be turned into state.
    StateNotIssued,
    /// The state handed in did not decrypt to a token.
    StateRejected,
    /// The message could not be sent to the platform.
    PostFailed,
    /// An upload form lacked its user or its state.
    MissingFields,
}

pub open spec fn failure_kind(f: Failure) -> ErrorKind {
    match f {
        Failure::NoCode => ErrorKind::BadRequest,
        Failure::InvalidCode => ErrorKind::BadRequest,
        Failure::TokenExchangeFailed => ErrorKind::UpstreamFailure,
        Failure::ProfileFailed => ErrorKind::UpstreamFailure,
        Failure::NameMissing => ErrorKind::UpstreamFailure,
        Failure::StateNotIssued => ErrorKind::InternalFailure,
        Failure::StateRejected => ErrorKind::InternalFailure,
        Failure::PostFailed => ErrorKind::UpstreamFailure,
        Failure::MissingFields => ErrorKind::BadRequest,
    }
}

pub open spec fn failure_message(f: Failure) -> Seq<char> {
    match f {
        Failure::NoCode => "No code"@,
        Failure::InvalidCode => "Invalid code"@,
        Failure::TokenExchangeFailed => "Failed to get access token"@,
        Failure::ProfileFailed => "Failed to get user's profile"@,
        Failure::NameMissing => "Failed to get user's name"@,
        Failure::StateNotIssued => "Failed to issue state"@,
        Failure::StateRejected => "Invalid state"@,
        Failure::PostFailed => "Failed to post message to slack"@,
        Failure::MissingFields => ""@,
    }
}

impl Failure {
    pub fn kind(&self) -> (r: ErrorKind)
        ensures
            r == failure_kind(*self),
    {
        match self {
            Failure::NoCode => ErrorKind::BadRequest,
            Failure::InvalidCode => ErrorKind::BadRequest,
            Failure::TokenExchangeFailed => ErrorKind::UpstreamFailure,
            Failure::ProfileFailed => ErrorKind::UpstreamFailure,
            Failure::NameMissing => ErrorKind::UpstreamFailure,
            Failure::StateNotIssued => ErrorKind::InternalFailure,
            Failure::StateRejected => ErrorKind::InternalFailure,
            Failure::PostFailed => ErrorKind::UpstreamFailure,
            Failure::MissingFields => ErrorKind::BadRequest,
        }
    }

    pub fn status(&self) -> (r: u16)
        ensures
            r == kind_status(failure_kind(*self)),
    {
        self.kind().status()
    }

    /// The fixed text sent with the status.
    pub fn message(&self) -> (r: &'static str)
        ensures
            r@ == failure_message(*self),
    {
        proof {
            reveal_strlit("No code");
            reveal_strlit("Invalid code");
            reveal_strlit("Failed to get access token");
            reveal_strlit("Failed to get user's profile");
            reveal_strlit("Failed to get user's name");
            reveal_strlit("Failed to issue state");
            reveal_strlit("Invalid state");
            reveal_strlit("Failed to post message to slack");
            reveal_strlit("");
        }
        match self {
            Failure::NoCode => "No code",
            Failure::InvalidCode => "Invalid code",
            Failure::TokenExchangeFailed => "Failed to get access token",
            Failure::ProfileFailed => "Failed to get user's profile",
            Failure::NameMissing => "Failed to get user's name",
            Failure::StateNotIssued => "Failed to issue state",
            Failure::StateRejected => "Invalid state",
            Failure::PostFailed => "Failed to post message to slack",
            Failure::MissingFields => "",
        }
    }
}

} // verus!
