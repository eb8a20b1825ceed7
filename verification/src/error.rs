//! The ways a credential flow can fail.

use vstd::prelude::*;
use vstd::string::*;
use crate::text::{decimal, decimal_text};

verus! {

/// Why a flow attempt ended without credentials. Every failure is scoped to
/// the attempt that met it; none is fatal to the program. Where a service
/// answered with a status other than success, the failure carries the
/// status.
#[derive(Debug, Clone, Copy, PartialEq, Eq)]
pub enum AuthError {
    /// The credential document is present but cannot be read or understood.
    Storage,
    /// The PIN service refused the request, with this status, or the PIN
    /// could not be made out of what was at hand.
    CreatePin(Option<u16>),
    /// The PIN service refused a status request, with this status, or
    /// the status could not be asked for or read.
    Poll(Option<u16>),
    /// The token endpoint refused the code, with this status, or
    /// answered without a required field.
    TokenExchange(Option<u16>),
    /// The loopback port is already in use.
    PortBind,
    /// The client id or the client secret is not on record.
    MissingClientCredentials,
    /// The bounded poll ran out of attempts.
    Timeout,
    /// The PIN passed its expiry before it was approved.
    Expired,
    /// The request never reached the service.
    Network,
}

/// A notice, followed by the status where there is one.
pub open spec fn with_status(notice: Seq<char>, bare: Seq<char>, status: Option<u16>) -> Seq<char> {
    match status {
        Some(s) => notice + ": "@ + decimal_text(s as int),
        None => bare,
    }
}

fn notice_with_status(notice: &str, bare: &str, status: Option<u16>) -> (r: String)
    ensures
        r@ == with_status(notice@, bare@, status),
{
    match status {
        Some(s) => {
            let mut r = notice.to_owned();
            r.append(": ");
            r.append(decimal(s as i64).as_str());
            r
        },
        None => bare.to_owned(),
    }
}

impl AuthError {
    /// The text of [`AuthError::message`].
    pub open spec fn message_text(self) -> Seq<char> {
        match self {
            AuthError::Storage => "Config read failed"@,
            AuthError::CreatePin(status) => with_status(
                "Plex PIN create failed"@,
                "Plex PIN create failed: incomplete response"@,
                status,
            ),
            AuthError::Poll(status) => with_status(
                "Plex PIN poll failed"@,
                "Plex PIN poll failed: unreadable response"@,
                status,
            ),
            AuthError::TokenExchange(status) => with_status(
                "SIMKL token exchange failed"@,
                "SIMKL token parse failed"@,
                status,
            ),
            AuthError::PortBind => "Bind 127.0.0.1:8787 failed"@,
            AuthError::MissingClientCredentials => "SIMKL client_id/secret missing"@,
            AuthError::Timeout => "Timed out waiting for approval"@,
            AuthError::Expired => "PIN expired before it was approved"@,
            AuthError::Network => "Request failed"@,
        }
    }

    /// A notice for the user, who may then try again.
    pub fn message(&self) -> (r: String)
        ensures
            r@ == self.message_text(),
    {
        match self {
            AuthError::Storage => "Config read failed".to_string(),
            AuthError::CreatePin(status) => notice_with_status(
                "Plex PIN create failed",
                "Plex PIN create failed: incomplete response",
                *status,
            ),
            AuthError::Poll(status) => notice_with_status(
                "Plex PIN poll failed",
                "Plex PIN poll failed: unreadable response",
                *status,
            ),
            AuthError::TokenExchange(status) => notice_with_status(
                "SIMKL token exchange failed",
                "SIMKL token parse failed",
                *status,
            ),
            AuthError::PortBind => "Bind 127.0.0.1:8787 failed".to_string(),
            AuthError::MissingClientCredentials => "SIMKL client_id/secret missing".to_string(),
            AuthError::Timeout => "Timed out waiting for approval".to_string(),
            AuthError::Expired => "PIN expired before it was approved".to_string(),
            AuthError::Network => "Request failed".to_string(),
        }
    }
}

} // verus!
