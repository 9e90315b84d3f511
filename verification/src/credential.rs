//! The credential data model: the cached bearer credential, the grant kinds
//! under which one can be (re-)acquired, the failure taxonomy, and the expiry
//! arithmetic with its safety margin.

use vstd::prelude::*;

use crate::text::{clone_opt_string, str_eq};

verus! {

/// Safety margin, in seconds, subtracted from a credential's nominal lifetime
/// so that a token is never presented when it could expire mid-request.
pub const EXPIRY_MARGIN_SECONDS: u64 = 60;

/// A bearer credential obtained from the authorization server.
#[derive(Debug, PartialEq, Eq)]
pub struct Credential {
    pub access_token: String,
    /// Present only for user-delegated (authorization-code) grants.
    pub refresh_token: Option<String>,
    pub token_type: String,
    pub scope: String,
    /// Timestamp, in seconds, at and after which the credential counts as
    /// expired.  Already includes the safety margin.
    pub expires_at: u64,
}

impl Clone for Credential {
    fn clone(&self) -> (r: Self)
        ensures
            r == *self,
    {
        Credential {
            access_token: self.access_token.clone(),
            refresh_token: clone_opt_string(&self.refresh_token),
            token_type: self.token_type.clone(),
            scope: self.scope.clone(),
            expires_at: self.expires_at,
        }
    }
}

impl Credential {
    /// A credential is valid strictly before its expiry timestamp.
    pub open spec fn spec_valid_at(self, now: u64) -> bool {
        now < self.expires_at
    }

    /// Whether the credential is still valid at `now`.
    pub fn valid_at(&self, now: u64) -> (r: bool)
        ensures
            r == self.spec_valid_at(now),
    {
        now < self.expires_at
    }
}

/// The exchange mechanism under which the store can (re-)acquire a credential.
#[derive(Clone, Copy, Debug, PartialEq, Eq, Structural)]
pub enum GrantKind {
    /// App-only grant: always re-acquirable from the static client secrets.
    ClientCredentials,
    /// User-delegated grant: needs a prior one-time code and yields a refresh
    /// token.
    AuthorizationCode,
}

/// Everything that can go wrong while acquiring or refreshing a credential.
#[derive(Clone, Debug, PartialEq, Eq)]
pub enum AuthFailure {
    /// Transport or timeout failure reaching the server; transient.
    NetworkError { message: String },
    /// Non-2xx response whose body did not parse as the error envelope.
    HttpStatusError { status: u16, body: String },
    /// 2xx response whose body fails the token schema, or lacks a usable
    /// access token.
    MalformedResponse,
    /// Provider-reported OAuth error parsed from the error envelope.  The
    /// description is kept when the envelope carries one as a string.
    AuthError { code: String, description: Option<String> },
    /// The store holds no credential and the active grant kind requires prior
    /// user authorization.
    MissingCredential,
}

/// A failure is a permanent provider rejection exactly when it is a reported
/// OAuth error with code `invalid_grant`; every other failure is transient.
pub open spec fn spec_is_permanent(f: AuthFailure) -> bool {
    f matches AuthFailure::AuthError { code, .. } && code@ == "invalid_grant"@
}

/// Whether a failure is a permanent provider rejection.
pub fn is_permanent_failure(f: &AuthFailure) -> (r: bool)
    ensures
        r == spec_is_permanent(*f),
{
    match f {
        AuthFailure::AuthError { code, .. } => str_eq(code.as_str(), "invalid_grant"),
        _ => false,
    }
}

/// Expiry timestamp of a credential issued at `issued_at` for a nominal
/// `expires_in` seconds: the margin is subtracted, floored so that a lifetime
/// at or below the margin counts as already expired, and the sum saturates at
/// the largest representable timestamp.
pub open spec fn spec_expires_at(issued_at: u64, expires_in: u64) -> u64 {
    if expires_in <= EXPIRY_MARGIN_SECONDS {
        issued_at
    } else if issued_at + expires_in - EXPIRY_MARGIN_SECONDS > u64::MAX {
        u64::MAX
    } else {
        (issued_at + expires_in - EXPIRY_MARGIN_SECONDS) as u64
    }
}

/// Computes the expiry timestamp for a credential issued now.
pub fn compute_expires_at(issued_at: u64, expires_in: u64) -> (r: u64)
    ensures
        r == spec_expires_at(issued_at, expires_in),
{
    if expires_in <= EXPIRY_MARGIN_SECONDS {
        issued_at
    } else {
        match issued_at.checked_add(expires_in - EXPIRY_MARGIN_SECONDS) {
            Some(v) => v,
            None => u64::MAX,
        }
    }
}

} // verus!
