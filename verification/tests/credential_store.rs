use chordmate::acquire::{parse_token_response, TokenRequestKind};
use chordmate::credential::{AuthFailure, Credential, GrantKind};
use chordmate::store::{CredentialStore, Decision};

fn cred(token: &str, refresh: Option<&str>, expires_at: u64) -> Credential {
    Credential {
        access_token: token.to_string(),
        refresh_token: refresh.map(|s| s.to_string()),
        token_type: "Bearer".to_string(),
        scope: "x".to_string(),
        expires_at,
    }
}

#[test]
fn empty_store_client_credentials_acquires() {
    let store = CredentialStore::new(GrantKind::ClientCredentials);
    assert!(store.cached().is_none());
    assert_eq!(store.decide(0), Decision::AcquireClientCredentials);
}

#[test]
fn empty_store_authorization_code_is_missing_credential() {
    let store = CredentialStore::new(GrantKind::AuthorizationCode);
    assert_eq!(store.decide(0), Decision::MissingCredential);
}

#[test]
fn expired_without_refresh_token_fails_fast() {
    // A user-delegated store whose cached credential carries no refresh token
    // reports MissingCredential without attempting any acquisition.
    let mut store = CredentialStore::new(GrantKind::AuthorizationCode);
    store.install_credential(cred("AT1", None, 500));
    assert_eq!(store.decide(500), Decision::MissingCredential);
}

#[test]
fn expiry_window_from_token_response() {
    // expires_in=3600 acquired at t0=1000: cached for [1000, 4540), refresh
    // due at and after 4540 (margin of 60 seconds subtracted).
    let t0: u64 = 1000;
    let body = r#"{"access_token":"AT1","token_type":"Bearer","expires_in":3600,"scope":"x"}"#;
    let c = parse_token_response(TokenRequestKind::ClientCredentials, 200, body.to_string(), t0)
        .unwrap();
    assert_eq!(c.expires_at, 4540);

    let mut store = CredentialStore::new(GrantKind::ClientCredentials);
    store.install_credential(c.clone());
    assert_eq!(store.decide(t0), Decision::UseCached(c.clone()));
    assert_eq!(store.decide(4539), Decision::UseCached(c));
    assert_eq!(store.decide(4540), Decision::AcquireClientCredentials);
    assert_eq!(store.decide(9999), Decision::AcquireClientCredentials);
}

#[test]
fn idempotent_fast_path() {
    // Two reads within the same valid window return identical credentials and
    // never demand an acquisition.
    let mut store = CredentialStore::new(GrantKind::ClientCredentials);
    store.install_credential(cred("AT1", None, 4540));
    let first = store.decide(1000);
    let second = store.decide(2000);
    assert_eq!(first, Decision::UseCached(cred("AT1", None, 4540)));
    assert_eq!(first, second);
}

#[test]
fn single_flight_success_round() {
    // 50 callers find the cache expired.  Under the store's lock discipline
    // the first performs the one acquisition; every other caller of the round
    // re-reads the cache afterwards and observes the installed credential.
    let mut store = CredentialStore::new(GrantKind::ClientCredentials);
    store.install_credential(cred("OLD", None, 100));
    let now: u64 = 100;

    let mut acquirer_calls: u32 = 0;
    let mut results: Vec<Credential> = Vec::new();
    for _caller in 0..50 {
        match store.decide(now) {
            Decision::UseCached(c) => results.push(c),
            Decision::AcquireClientCredentials => {
                acquirer_calls += 1;
                let outcome = Ok(cred("NEW", None, now + 3540));
                results.push(store.apply_refresh_outcome(outcome).unwrap());
            }
            other => panic!("unexpected decision: {:?}", other),
        }
    }
    assert_eq!(acquirer_calls, 1);
    for r in &results {
        assert_eq!(*r, cred("NEW", None, 3640));
    }
}

#[test]
fn single_flight_failure_round() {
    // A failed round hands the same failure to every waiter and, being
    // transient, leaves the expired cache in place for a later retry.
    let mut store = CredentialStore::new(GrantKind::ClientCredentials);
    store.install_credential(cred("OLD", None, 100));

    let outcome = Err(AuthFailure::NetworkError { message: "timeout".to_string() });
    let round_result = store.apply_refresh_outcome(outcome);
    let mut results = Vec::new();
    for _waiter in 0..50 {
        results.push(round_result.clone().unwrap_err());
    }
    for r in &results {
        assert_eq!(*r, AuthFailure::NetworkError { message: "timeout".to_string() });
    }
    assert_eq!(*store.cached(), Some(cred("OLD", None, 100)));
}

#[test]
fn permanent_failure_clears_cache_authorization_code() {
    let mut store = CredentialStore::new(GrantKind::AuthorizationCode);
    store.install_credential(cred("AT1", Some("RT1"), 100));
    assert_eq!(store.decide(100), Decision::Refresh("RT1".to_string()));

    let failure = AuthFailure::AuthError {
        code: "invalid_grant".to_string(),
        description: None,
    };
    let r = store.apply_refresh_outcome(Err(failure));
    assert_eq!(
        r.unwrap_err(),
        AuthFailure::AuthError { code: "invalid_grant".to_string(), description: None }
    );
    assert!(store.cached().is_none());
    assert_eq!(store.decide(100), Decision::MissingCredential);
}

#[test]
fn permanent_failure_clears_cache_client_credentials() {
    let mut store = CredentialStore::new(GrantKind::ClientCredentials);
    store.install_credential(cred("AT1", None, 100));
    let failure = AuthFailure::AuthError {
        code: "invalid_grant".to_string(),
        description: Some("revoked".to_string()),
    };
    store.apply_refresh_outcome(Err(failure)).unwrap_err();
    assert!(store.cached().is_none());
    assert_eq!(store.decide(100), Decision::AcquireClientCredentials);
}

#[test]
fn transient_provider_error_keeps_cache() {
    // Any OAuth error other than invalid_grant counts as transient.
    let mut store = CredentialStore::new(GrantKind::ClientCredentials);
    store.install_credential(cred("AT1", None, 100));
    let failure = AuthFailure::AuthError {
        code: "invalid_client".to_string(),
        description: None,
    };
    store.apply_refresh_outcome(Err(failure)).unwrap_err();
    assert_eq!(*store.cached(), Some(cred("AT1", None, 100)));
}

#[test]
fn refresh_retains_prior_refresh_token() {
    // A provider that does not rotate refresh tokens leaves the prior one in
    // place; one that rotates replaces it.
    let mut store = CredentialStore::new(GrantKind::AuthorizationCode);
    store.install_credential(cred("AT1", Some("RT1"), 100));

    let kept = store
        .apply_refresh_outcome(Ok(cred("AT2", None, 4540)))
        .unwrap();
    assert_eq!(kept.refresh_token, Some("RT1".to_string()));

    store.install_credential(cred("AT2", Some("RT1"), 100));
    let rotated = store
        .apply_refresh_outcome(Ok(cred("AT3", Some("RT2"), 4540)))
        .unwrap();
    assert_eq!(rotated.refresh_token, Some("RT2".to_string()));
}

#[test]
fn time_until_expiry_diagnostic() {
    let mut store = CredentialStore::new(GrantKind::ClientCredentials);
    assert_eq!(store.time_until_expiry(0), 0);
    store.install_credential(cred("AT1", None, 4540));
    assert_eq!(store.time_until_expiry(1000), 3540);
    assert_eq!(store.time_until_expiry(4540), 0);
    assert_eq!(store.time_until_expiry(9000), 0);
}

#[test]
fn end_to_end_exchange_then_refresh() {
    // Exchange a code, serve the minted credential from the cache, let it
    // expire, refresh once with the stored refresh token, and serve the new
    // credential.
    let t0: u64 = 0;
    let exchange_body = r#"{"access_token":"AT1","expires_in":3600,"refresh_token":"RT1","token_type":"Bearer","scope":"x"}"#;
    let minted = parse_token_response(
        TokenRequestKind::AuthorizationCode,
        200,
        exchange_body.to_string(),
        t0,
    )
    .unwrap();
    assert_eq!(minted.access_token, "AT1");
    assert_eq!(minted.refresh_token, Some("RT1".to_string()));

    let mut store = CredentialStore::new(GrantKind::AuthorizationCode);
    store.install_credential(minted);
    match store.decide(t0) {
        Decision::UseCached(c) => assert_eq!(c.access_token, "AT1"),
        other => panic!("unexpected decision: {:?}", other),
    }

    // 3601 seconds later the credential is past its margin-adjusted expiry.
    let later = t0 + 3601;
    let mut refresh_calls: u32 = 0;
    let served = match store.decide(later) {
        Decision::UseCached(c) => c,
        Decision::Refresh(rt) => {
            assert_eq!(rt, "RT1");
            refresh_calls += 1;
            let refresh_body = r#"{"access_token":"AT2","expires_in":3600,"token_type":"Bearer","scope":"x"}"#;
            let outcome = parse_token_response(
                TokenRequestKind::RefreshToken,
                200,
                refresh_body.to_string(),
                later,
            );
            store.apply_refresh_outcome(outcome).unwrap()
        }
        other => panic!("unexpected decision: {:?}", other),
    };
    assert_eq!(refresh_calls, 1);
    assert_eq!(served.access_token, "AT2");
    assert_eq!(served.refresh_token, Some("RT1".to_string()));
    match store.decide(later) {
        Decision::UseCached(c) => assert_eq!(c.access_token, "AT2"),
        other => panic!("unexpected decision: {:?}", other),
    }
}
