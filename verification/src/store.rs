//! The credential store: at most one cached credential, and the coordinating
//! logic that serves it, decides when an acquisition is due, and installs the
//! outcome of each acquisition round.
//!
//! The store itself is synchronous and holds no lock; the surrounding service
//! owns one store, guards it with an exclusion lock held across the whole
//! read-decide-acquire-install sequence, and performs the network round trip
//! between [`CredentialStore::decide`] and
//! [`CredentialStore::apply_refresh_outcome`].  Because the lock spans the
//! full sequence, concurrent callers that find the cache expired wait for the
//! one in-flight acquisition and then re-read the cache; the laws at the end
//! of this module state that such waiters observe the one installed result
//! and demand no further acquisition.

use vstd::prelude::*;

use crate::credential::{
    is_permanent_failure, spec_expires_at, spec_is_permanent, AuthFailure, Credential,
    GrantKind, EXPIRY_MARGIN_SECONDS,
};
use crate::text::clone_opt_string;

verus! {

/// What a caller that wants a valid credential must do next.
#[derive(Clone, Debug, PartialEq)]
pub enum Decision {
    /// The cached credential is still valid: use it as it is.
    UseCached(Credential),
    /// Acquire afresh from the static app secrets.
    AcquireClientCredentials,
    /// Renew by presenting this refresh token.
    Refresh(String),
    /// No credential and no refresh token under a user-delegated grant: the
    /// caller must complete the authorization-code exchange out of band.
    MissingCredential,
}

/// The decision served for a store in state `cached` under `grant` at `now`:
/// the cached credential while it is valid; otherwise the acquisition that
/// the grant kind allows, or `MissingCredential` where none is possible.
pub open spec fn spec_decision(grant: GrantKind, cached: Option<Credential>, now: u64) -> Decision {
    if cached matches Some(c) && now < c.expires_at {
        Decision::UseCached(cached->0)
    } else {
        match grant {
            GrantKind::ClientCredentials => Decision::AcquireClientCredentials,
            GrantKind::AuthorizationCode => {
                if cached matches Some(c) && c.refresh_token is Some {
                    Decision::Refresh(cached->0.refresh_token->0)
                } else {
                    Decision::MissingCredential
                }
            },
        }
    }
}

/// The credential a successful acquisition installs: the fresh one, except
/// that a provider which did not rotate the refresh token leaves the prior
/// one in place.
pub open spec fn spec_installed(fresh: Credential, prior: Option<Credential>) -> Credential {
    if fresh.refresh_token is None && (prior matches Some(p) && p.refresh_token is Some) {
        Credential { refresh_token: prior->0.refresh_token, ..fresh }
    } else {
        fresh
    }
}

/// How one acquisition round ends: the new cache contents, and the result
/// handed to every caller of the round.  Success installs the (retention-
/// adjusted) credential; a permanent rejection clears the cache; a transient
/// failure leaves the cache as it was.
pub open spec fn spec_apply_refresh(
    cached: Option<Credential>,
    outcome: Result<Credential, AuthFailure>,
) -> (Option<Credential>, Result<Credential, AuthFailure>) {
    match outcome {
        Ok(fresh) => (
            Some(spec_installed(fresh, cached)),
            Ok(spec_installed(fresh, cached)),
        ),
        Err(f) => (
            if spec_is_permanent(f) {
                None
            } else {
                cached
            },
            Err(f),
        ),
    }
}

/// Holds at most one cached credential together with the grant context needed
/// to re-acquire it.  Created empty; mutated only through the operations
/// below.
pub struct CredentialStore {
    grant: GrantKind,
    cached: Option<Credential>,
}

impl CredentialStore {
    /// The grant kind under which this store (re-)acquires credentials.
    pub closed spec fn spec_grant(&self) -> GrantKind {
        self.grant
    }

    /// The cached credential, if any.
    pub closed spec fn spec_cached(&self) -> Option<Credential> {
        self.cached
    }

    /// A store that has never held a credential.
    pub fn new(grant: GrantKind) -> (r: CredentialStore)
        ensures
            r.spec_grant() == grant,
            r.spec_cached() is None,
    {
        CredentialStore { grant, cached: None }
    }

    /// The grant kind of this store.
    pub fn grant(&self) -> (r: GrantKind)
        ensures
            r == self.spec_grant(),
    {
        self.grant
    }

    /// The cached credential, for diagnostic reads.
    pub fn cached(&self) -> (r: &Option<Credential>)
        ensures
            *r == self.spec_cached(),
    {
        &self.cached
    }

    /// Seconds until the cached credential expires; zero when the cache is
    /// empty or already expired.
    pub open spec fn spec_time_until_expiry(&self, now: u64) -> u64 {
        if self.spec_cached() matches Some(c) && now < c.expires_at {
            (self.spec_cached()->0.expires_at - now) as u64
        } else {
            0
        }
    }

    /// How long the cached credential remains valid at `now`.
    pub fn time_until_expiry(&self, now: u64) -> (r: u64)
        ensures
            r == self.spec_time_until_expiry(now),
    {
        match &self.cached {
            Some(c) => {
                if now < c.expires_at {
                    c.expires_at - now
                } else {
                    0
                }
            },
            None => 0,
        }
    }

    /// Reads the cache and decides what a caller that needs a valid
    /// credential must do at `now`.  Mutates nothing: every concurrent
    /// caller of the same round reads the same decision.
    pub fn decide(&self, now: u64) -> (d: Decision)
        ensures
            d == spec_decision(self.spec_grant(), self.spec_cached(), now),
    {
        if let Some(c) = &self.cached {
            if c.valid_at(now) {
                return Decision::UseCached(c.clone());
            }
        }
        match self.grant {
            GrantKind::ClientCredentials => Decision::AcquireClientCredentials,
            GrantKind::AuthorizationCode => match &self.cached {
                Some(c) => match &c.refresh_token {
                    Some(rt) => Decision::Refresh(rt.clone()),
                    None => Decision::MissingCredential,
                },
                None => Decision::MissingCredential,
            },
        }
    }

    /// Ends one acquisition round: installs a successful outcome (retaining
    /// the prior refresh token when the provider did not rotate it), clears
    /// the cache on a permanent rejection, leaves it untouched on a
    /// transient failure, and returns what every caller of the round
    /// receives.
    pub fn apply_refresh_outcome(&mut self, outcome: Result<Credential, AuthFailure>) -> (r:
        Result<Credential, AuthFailure>)
        ensures
            final(self).spec_grant() == old(self).spec_grant(),
            final(self).spec_cached() == spec_apply_refresh(old(self).spec_cached(), outcome).0,
            r == spec_apply_refresh(old(self).spec_cached(), outcome).1,
    {
        match outcome {
            Ok(fresh) => {
                let retained: Option<String> = match &fresh.refresh_token {
                    Some(_) => clone_opt_string(&fresh.refresh_token),
                    None => match &self.cached {
                        Some(p) => clone_opt_string(&p.refresh_token),
                        None => None,
                    },
                };
                let installed = Credential { refresh_token: retained, ..fresh };
                self.cached = Some(installed.clone());
                Ok(installed)
            },
            Err(f) => {
                if is_permanent_failure(&f) {
                    self.cached = None;
                }
                Err(f)
            },
        }
    }

    /// Installs a credential obtained by the out-of-band authorization-code
    /// exchange, unconditionally.
    pub fn install_credential(&mut self, credential: Credential)
        ensures
            final(self).spec_grant() == old(self).spec_grant(),
            final(self).spec_cached() == Some(credential),
    {
        self.cached = Some(credential);
    }
}

/// Expiry arithmetic: a credential issued at `t0` with a nominal lifetime of
/// `expires_in` seconds is served from the cache strictly before
/// `t0 + expires_in - margin`, and at or after that point the store demands
/// an acquisition instead.
pub proof fn lemma_expiry_window(
    grant: GrantKind,
    c: Credential,
    t0: u64,
    expires_in: u64,
    now: u64,
)
    requires
        c.expires_at == spec_expires_at(t0, expires_in),
        EXPIRY_MARGIN_SECONDS < expires_in,
        t0 + expires_in - EXPIRY_MARGIN_SECONDS <= u64::MAX,
    ensures
        now < t0 + expires_in - EXPIRY_MARGIN_SECONDS ==> spec_decision(grant, Some(c), now)
            == Decision::UseCached(c),
        now >= t0 + expires_in - EXPIRY_MARGIN_SECONDS ==> !(spec_decision(grant, Some(c), now)
            is UseCached),
{
}

/// Idempotent fast path: two reads within the same validity window return
/// the same credential, and neither demands an acquisition.
pub proof fn lemma_fast_path_idempotent(
    grant: GrantKind,
    cached: Option<Credential>,
    now1: u64,
    now2: u64,
)
    requires
        cached matches Some(c) && now1 < c.expires_at,
        cached matches Some(c) && now2 < c.expires_at,
    ensures
        spec_decision(grant, cached, now1) == Decision::UseCached(cached->0),
        spec_decision(grant, cached, now1) == spec_decision(grant, cached, now2),
{
}

/// Single-flight round, successful case: the one installed credential is
/// handed to every caller of the round, and every later read within its
/// validity window is served from the cache, demanding no further
/// acquisition.
pub proof fn lemma_single_flight_round(
    grant: GrantKind,
    cached: Option<Credential>,
    fresh: Credential,
    later: u64,
)
    ensures
        spec_apply_refresh(cached, Ok(fresh)).1 == Ok::<Credential, AuthFailure>(
            spec_installed(fresh, cached),
        ),
        spec_apply_refresh(cached, Ok(fresh)).0 == Some(spec_installed(fresh, cached)),
        later < spec_installed(fresh, cached).expires_at ==> spec_decision(
            grant,
            spec_apply_refresh(cached, Ok(fresh)).0,
            later,
        ) == Decision::UseCached(spec_installed(fresh, cached)),
{
}

/// Single-flight round, failed case: the one failure is handed to every
/// caller of the round, and the store stays consistent — the prior cache on
/// a transient failure, an empty cache on a permanent rejection.
pub proof fn lemma_failed_round(cached: Option<Credential>, f: AuthFailure)
    ensures
        spec_apply_refresh(cached, Err(f)).1 == Err::<Credential, AuthFailure>(f),
        spec_is_permanent(f) ==> spec_apply_refresh(cached, Err(f)).0 is None,
        !spec_is_permanent(f) ==> spec_apply_refresh(cached, Err(f)).0 == cached,
{
}

/// A permanent provider rejection clears the cache: afterwards an app-only
/// store acquires afresh, and a user-delegated store reports that
/// authorization is missing.
pub proof fn lemma_permanent_failure_clears(
    grant: GrantKind,
    cached: Option<Credential>,
    f: AuthFailure,
    now: u64,
)
    requires
        spec_is_permanent(f),
    ensures
        spec_apply_refresh(cached, Err(f)).0 is None,
        grant == GrantKind::ClientCredentials ==> spec_decision(
            grant,
            spec_apply_refresh(cached, Err(f)).0,
            now,
        ) == Decision::AcquireClientCredentials,
        grant == GrantKind::AuthorizationCode ==> spec_decision(
            grant,
            spec_apply_refresh(cached, Err(f)).0,
            now,
        ) == Decision::MissingCredential,
{
}

} // verus!

