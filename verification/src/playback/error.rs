//! What can go wrong with a playback request.

use vstd::prelude::*;
use vstd::string::*;

verus! {

/// Why a playback request failed.
#[derive(Debug)]
pub enum PlaybackError {
    BadRequest(String),
    NotFound(String),
    Conflict(String),
    Library(String),
    Integration(String),
    RetryableNetwork(String),
    ZoneNotAvailable,
}

/// The kind of a playback error.
#[derive(Clone, Copy, Debug, PartialEq, Eq, Structural)]
pub enum ErrorKind {
    BadRequest,
    NotFound,
    Conflict,
    Library,
    Integration,
    RetryableNetwork,
    ZoneNotAvailable,
}

impl PlaybackError {
    pub open spec fn spec_kind(self) -> ErrorKind {
        match self {
            PlaybackError::BadRequest(_) => ErrorKind::BadRequest,
            PlaybackError::NotFound(_) => ErrorKind::NotFound,
            PlaybackError::Conflict(_) => ErrorKind::Conflict,
            PlaybackError::Library(_) => ErrorKind::Library,
            PlaybackError::Integration(_) => ErrorKind::Integration,
            PlaybackError::RetryableNetwork(_) => ErrorKind::RetryableNetwork,
            PlaybackError::ZoneNotAvailable => ErrorKind::ZoneNotAvailable,
        }
    }

    pub open spec fn spec_message(self) -> Seq<char> {
        match self {
            PlaybackError::BadRequest(m) => m@,
            PlaybackError::NotFound(m) => m@,
            PlaybackError::Conflict(m) => m@,
            PlaybackError::Library(m) => m@,
            PlaybackError::Integration(m) => m@,
            PlaybackError::RetryableNetwork(m) => m@,
            PlaybackError::ZoneNotAvailable => "Zone not available"@,
        }
    }

    /// The error is of this kind and carries this message.
    pub open spec fn is(self, kind: ErrorKind, message: Seq<char>) -> bool {
        self.spec_kind() == kind && self.spec_message() == message
    }

    /// The kind of the error.
    pub fn kind(&self) -> (r: ErrorKind)
        ensures
            r == self.spec_kind(),
    {
        match self {
            PlaybackError::BadRequest(_) => ErrorKind::BadRequest,
            PlaybackError::NotFound(_) => ErrorKind::NotFound,
            PlaybackError::Conflict(_) => ErrorKind::Conflict,
            PlaybackError::Library(_) => ErrorKind::Library,
            PlaybackError::Integration(_) => ErrorKind::Integration,
            PlaybackError::RetryableNetwork(_) => ErrorKind::RetryableNetwork,
            PlaybackError::ZoneNotAvailable => ErrorKind::ZoneNotAvailable,
        }
    }

    /// The message of the error.
    pub fn message(&self) -> (r: String)
        ensures
            r@ == self.spec_message(),
    {
        match self {
            PlaybackError::BadRequest(m) => m.clone(),
            PlaybackError::NotFound(m) => m.clone(),
            PlaybackError::Conflict(m) => m.clone(),
            PlaybackError::Library(m) => m.clone(),
            PlaybackError::Integration(m) => m.clone(),
            PlaybackError::RetryableNetwork(m) => m.clone(),
            PlaybackError::ZoneNotAvailable => "Zone not available".to_string(),
        }
    }

    pub fn bad_request(message: &str) -> (r: PlaybackError)
        ensures
            r.is(ErrorKind::BadRequest, message@),
    {
        PlaybackError::BadRequest(message.to_string())
    }

    pub fn not_found(message: &str) -> (r: PlaybackError)
        ensures
            r.is(ErrorKind::NotFound, message@),
    {
        PlaybackError::NotFound(message.to_string())
    }

    pub fn conflict(message: &str) -> (r: PlaybackError)
        ensures
            r.is(ErrorKind::Conflict, message@),
    {
        PlaybackError::Conflict(message.to_string())
    }
}

/// Why a request could not be resolved to a source.
#[derive(Debug)]
pub enum ResolveError {
    TrackNotFound,
    FileNotFound(String),
    InvalidFileName,
    Library(String),
}

/// An error is of the kind that it was made of and says what it was told.
pub proof fn law_errors_say_what_they_are(error: PlaybackError, message: Seq<char>)
    ensures
        error.is(ErrorKind::BadRequest, message) <==> error is BadRequest && error->BadRequest_0@
            == message,
        error.is(ErrorKind::NotFound, message) <==> error is NotFound && error->NotFound_0@
            == message,
        error.is(ErrorKind::Conflict, message) <==> error is Conflict && error->Conflict_0@
            == message,
        error.is(ErrorKind::Library, message) <==> error is Library && error->Library_0@ == message,
        error.is(ErrorKind::Integration, message) <==> error is Integration
            && error->Integration_0@ == message,
        error.is(ErrorKind::RetryableNetwork, message) <==> error is RetryableNetwork
            && error->RetryableNetwork_0@ == message,
        error.is(ErrorKind::ZoneNotAvailable, message) <==> error is ZoneNotAvailable && message
            == "Zone not available"@,
{
}

} // verus!
