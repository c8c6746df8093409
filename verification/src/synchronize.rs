//! The mirror's immutable configuration and the decision logic of its
//! authentication step.
//!
//! The network itself (TCP connect, session handshake, credential
//! submission) is driven outside the library; the functions here fix what is
//! sent and decide, from the outcomes handed back, which error each failing
//! step raises.

use vstd::prelude::*;
use vstd::string::*;
use crate::sync_error::{SyncErrorKind, SynchronizeRunnerError};
use crate::text::{decimal_string_of, u64_to_string};

verus! {

/// Ghost image of the mirror configuration.
pub ghost struct SynchronizeRunnerView {
    pub local_dir_path: Seq<char>,
    pub remote_dir_path: Seq<char>,
    pub remote_host: Seq<char>,
    pub remote_port: u32,
    pub remote_username: Seq<char>,
}

/// The immutable configuration of one mirror: where to mirror from and to,
/// and whom to connect as. Supplied once at startup and never mutated.
pub struct SynchronizeRunner {
    local_dir_path: String,
    remote_dir_path: String,
    remote_host: String,
    remote_port: u32,
    remote_username: String,
}

/// The parts a mirror configuration is assembled from.
pub struct SynchronizeRunnerBuilder {
    pub local_dir_path: String,
    pub remote_dir_path: String,
    pub remote_host: String,
    pub remote_port: u32,
    pub remote_username: String,
}

impl View for SynchronizeRunner {
    type V = SynchronizeRunnerView;

    closed spec fn view(&self) -> SynchronizeRunnerView {
        SynchronizeRunnerView {
            local_dir_path: self.local_dir_path@,
            remote_dir_path: self.remote_dir_path@,
            remote_host: self.remote_host@,
            remote_port: self.remote_port,
            remote_username: self.remote_username@,
        }
    }
}

impl SynchronizeRunner {
    /// Assembles a configuration from its parts.
    pub fn new(builder: SynchronizeRunnerBuilder) -> (runner: Self)
        ensures
            runner@.local_dir_path == builder.local_dir_path@,
            runner@.remote_dir_path == builder.remote_dir_path@,
            runner@.remote_host == builder.remote_host@,
            runner@.remote_port == builder.remote_port,
            runner@.remote_username == builder.remote_username@,
    {
        let SynchronizeRunnerBuilder {
            remote_dir_path,
            local_dir_path,
            remote_host,
            remote_port,
            remote_username,
        } = builder;
        Self { local_dir_path, remote_dir_path, remote_host, remote_port, remote_username }
    }

    /// The `host:port` address the transport connection is opened to.
    pub fn remote_host_and_port(&self) -> (address: String)
        ensures
            address@ == self@.remote_host + ":"@ + decimal_string_of(self@.remote_port as nat),
    {
        let mut address = self.remote_host.clone();
        address.append(":");
        address.append(u64_to_string(self.remote_port as u64).as_str());
        address
    }

    /// The local directory files are mirrored into.
    pub fn local_dir_path(&self) -> (path: &str)
        ensures
            path@ == self@.local_dir_path,
    {
        self.local_dir_path.as_str()
    }

    /// The remote directory files are mirrored from.
    pub fn remote_dir_path(&self) -> (path: &str)
        ensures
            path@ == self@.remote_dir_path,
    {
        self.remote_dir_path.as_str()
    }

    /// The remote host name.
    pub fn remote_host(&self) -> (host: &str)
        ensures
            host@ == self@.remote_host,
    {
        self.remote_host.as_str()
    }

    /// The remote port.
    pub fn remote_port(&self) -> (port: u32)
        ensures
            port == self@.remote_port,
    {
        self.remote_port
    }

    /// The username authentication is attempted for.
    pub fn remote_username(&self) -> (username: &str)
        ensures
            username@ == self@.remote_username,
    {
        self.remote_username.as_str()
    }
}

/// Decides the outcome of the credential-submission step. The caller hands
/// in whether the server accepted the username/password pair and whether the
/// session reports itself authenticated afterwards; the second check is a
/// deliberate defence against sessions that report success prematurely.
/// Authentication succeeds exactly when both hold; either failure is an
/// authentication error, and the rejection message names the username, never
/// the password.
pub fn authentication_outcome(
    userauth_accepted: bool,
    session_authenticated: bool,
    username: &str,
) -> (outcome: Result<(), SynchronizeRunnerError>)
    ensures
        outcome is Ok <==> (userauth_accepted && session_authenticated),
        !userauth_accepted ==> (outcome matches Err(error) && error@.kind
            == SyncErrorKind::Authentication && error@.message == Some(
            "Username ("@ + username@ + ") and password combination failed"@,
        )),
        userauth_accepted && !session_authenticated ==> (outcome matches Err(error) && error@.kind
            == SyncErrorKind::Authentication && error@.message == Some(
            "Unable to authenticate with remote SSH server"@,
        )),
{
    if !userauth_accepted {
        Err(SynchronizeRunnerError::authentication_rejected(username))
    } else if !session_authenticated {
        Err(SynchronizeRunnerError::authentication_not_established())
    } else {
        Ok(())
    }
}

/// The status line printed once per cycle: the timestamp the caller rendered
/// and the configured poll interval in seconds.
pub fn status_line(timestamp: &str, sleep_duration_secs: u64) -> (line: String)
    ensures
        line@ == "["@ + timestamp@ + "] Syncing remote files to local, with loop duration: "@
            + decimal_string_of(sleep_duration_secs as nat) + "s"@,
{
    String::from_str("[").concat(timestamp).concat(
        "] Syncing remote files to local, with loop duration: ",
    ).concat(u64_to_string(sleep_duration_secs).as_str()).concat("s")
}

} // verus!
