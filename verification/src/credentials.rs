//! Short-lived credentials of an account and the rule that keeps expired
//! ones from being used.

use crate::cloudwatch::Timestamp;
use crate::error::ScanError;
use vstd::prelude::*;

verus! {

/// The name under which every role session is opened.
pub const ROLE_SESSION_NAME: &'static str = "lb_janitor_assumerole_session";

/// The kinds of call that a scan makes with an account's credentials.
#[derive(Clone, Copy, Debug, PartialEq, Eq, Structural)]
pub enum ApiCall {
    /// Fetching a page of a region's inventory.
    Listing,
    /// Anything that serves to classify one load balancer.
    Classification,
    /// Deleting one load balancer.
    Deletion,
}

/// Whether the instant `a` lies after the instant `b`.
pub open spec fn later(a: Timestamp, b: Timestamp) -> bool {
    a.secs > b.secs || (a.secs == b.secs && a.nanos > b.nanos)
}

/// The credentials that a role assumption handed out, with the instant at
/// which they stop being valid.
#[derive(Debug)]
pub struct Credentials {
    pub access_key_id: String,
    pub secret_key: String,
    pub session_token: String,
    pub expires_at: Timestamp,
}

impl Credentials {
    /// Whether the credentials have expired at `now`: whether `now` lies
    /// after `expires_at`.
    pub open spec fn expired(&self, now: Timestamp) -> bool {
        later(now, self.expires_at)
    }

    /// What an attempt at `call` with these credentials at `now` comes to.
    pub open spec fn verdict(&self, call: ApiCall, now: Timestamp) -> Result<(), ScanError> {
        if !self.expired(now) {
            Ok(())
        } else if call == ApiCall::Listing {
            Err(ScanError::Listing)
        } else {
            Err(ScanError::Credential)
        }
    }

    /// Whether the credentials have expired at `now`.
    pub fn is_expired(&self, now: Timestamp) -> (expired: bool)
        ensures
            expired == self.expired(now),
    {
        now.secs > self.expires_at.secs || (now.secs == self.expires_at.secs && now.nanos
            > self.expires_at.nanos)
    }

    /// Decides whether `call` may be made at `now`. With expired credentials
    /// it may not: a listing call then fails as a listing error, any other
    /// call as a credential error.
    pub fn authorize(&self, call: ApiCall, now: Timestamp) -> (verdict: Result<(), ScanError>)
        ensures
            verdict == self.verdict(call, now),
            self.expired(now) ==> verdict is Err,
            !self.expired(now) ==> verdict is Ok,
    {
        if !self.is_expired(now) {
            Ok(())
        } else {
            match call {
                ApiCall::Listing => Err(ScanError::Listing),
                _ => Err(ScanError::Credential),
            }
        }
    }

    /// The credentials of an account, from the answer to a role assumption.
    /// An assumption that failed is a credential error.
    pub fn from_response<E>(response: Result<Credentials, E>) -> (minted: Result<
        Credentials,
        ScanError,
    >)
        ensures
            minted == match response {
                Ok(credentials) => Ok::<Credentials, ScanError>(credentials),
                Err(_) => Err(ScanError::Credential),
            },
    {
        match response {
            Ok(credentials) => Ok(credentials),
            Err(_) => Err(ScanError::Credential),
        }
    }
}

} // verus!
