//! The failure classes of the file mirror and the error value they travel in.

use vstd::prelude::*;
use vstd::string::*;

verus! {

/// Which step of a mirror cycle failed.
#[derive(Clone, Copy, PartialEq, Eq, Structural, Debug)]
pub enum SyncErrorKind {
    /// The transport connection to the remote host could not be opened.
    Connection,
    /// The session handshake over an open transport failed.
    Handshake,
    /// The server rejected the credentials, or the session did not report
    /// itself authenticated afterwards.
    Authentication,
    /// Executing a remote command or transferring content failed.
    Channel,
    /// A local filesystem read or write failed.
    Io,
    /// Content was not well-formed text, or a name was not portable text.
    Encoding,
}

/// Ghost image of a synchronize-runner error.
pub ghost struct SyncErrorView {
    pub kind: SyncErrorKind,
    pub message: Option<Seq<char>>,
}

/// Error raised by the synchronize runner: the failure class together with an
/// optional operator-facing message.
#[derive(Debug)]
pub struct SynchronizeRunnerError {
    kind: SyncErrorKind,
    message: Option<String>,
}

impl View for SynchronizeRunnerError {
    type V = SyncErrorView;

    closed spec fn view(&self) -> SyncErrorView {
        SyncErrorView {
            kind: self.kind,
            message: match self.message {
                Some(ref m) => Some(m@),
                None => None,
            },
        }
    }
}

impl SynchronizeRunnerError {
    /// A local I/O failure carrying the underlying message.
    pub fn new(message: String) -> (error: Self)
        ensures
            error@.kind == SyncErrorKind::Io,
            error@.message == Some(message@),
    {
        Self { kind: SyncErrorKind::Io, message: Some(message) }
    }

    /// The transport connection to the given `host:port` address failed.
    pub fn connection_error(address: &str) -> (error: Self)
        ensures
            error@.kind == SyncErrorKind::Connection,
            error@.message == Some("Could not connect to SSH server "@ + address@),
    {
        Self {
            kind: SyncErrorKind::Connection,
            message: Some(String::from_str("Could not connect to SSH server ").concat(address)),
        }
    }

    /// The session handshake failed; `detail` is the transport's own message.
    pub fn handshake_error(detail: String) -> (error: Self)
        ensures
            error@.kind == SyncErrorKind::Handshake,
            error@.message == Some(detail@),
    {
        Self { kind: SyncErrorKind::Handshake, message: Some(detail) }
    }

    /// The server rejected the username/password pair. The message names the
    /// username, never the password.
    pub fn authentication_rejected(username: &str) -> (error: Self)
        ensures
            error@.kind == SyncErrorKind::Authentication,
            error@.message == Some(
                "Username ("@ + username@ + ") and password combination failed"@,
            ),
    {
        Self {
            kind: SyncErrorKind::Authentication,
            message: Some(
                String::from_str("Username (").concat(username).concat(
                    ") and password combination failed",
                ),
            ),
        }
    }

    /// The credentials were nominally accepted, yet the session does not
    /// report itself authenticated.
    pub fn authentication_not_established() -> (error: Self)
        ensures
            error@.kind == SyncErrorKind::Authentication,
            error@.message == Some("Unable to authenticate with remote SSH server"@),
    {
        Self {
            kind: SyncErrorKind::Authentication,
            message: Some(String::from_str("Unable to authenticate with remote SSH server")),
        }
    }

    /// A remote command or content transfer failed; `detail` is the session's
    /// own message.
    pub fn channel_error(detail: String) -> (error: Self)
        ensures
            error@.kind == SyncErrorKind::Channel,
            error@.message == Some(detail@),
    {
        Self { kind: SyncErrorKind::Channel, message: Some(detail) }
    }

    /// Content or a filename was not representable as portable text.
    pub fn encoding_error(detail: String) -> (error: Self)
        ensures
            error@.kind == SyncErrorKind::Encoding,
            error@.message == Some(detail@),
    {
        Self { kind: SyncErrorKind::Encoding, message: Some(detail) }
    }

    /// The failure class of this error.
    pub fn kind(&self) -> (kind: SyncErrorKind)
        ensures
            kind == self@.kind,
    {
        self.kind
    }

    /// The raw message, if one was recorded.
    pub fn message(&self) -> (message: &Option<String>)
        ensures
            match message {
                Some(m) => self@.message == Some(m@),
                None => self@.message is None,
            },
    {
        &self.message
    }

    /// The operator-facing text of this error.
    pub fn to_text(&self) -> (text: String)
        ensures
            text@ == match self@.message {
                Some(m) => "[FileSyncError] "@ + m,
                None => "[FileSyncError] Synchronize runner error without a message"@,
            },
    {
        match &self.message {
            Some(message) => String::from_str("[FileSyncError] ").concat(message.as_str()),
            None => String::from_str(
                "[FileSyncError] Synchronize runner error without a message",
            ),
        }
    }
}

impl Default for SynchronizeRunnerError {
    /// An error without a message, classed as a local I/O failure.
    fn default() -> (error: Self)
        ensures
            error@.kind == SyncErrorKind::Io,
            error@.message is None,
    {
        Self { kind: SyncErrorKind::Io, message: None }
    }
}

} // verus!
