//! The token acquirer: builds the outbound token-endpoint requests and parses
//! the responses that come back.
//!
//! Each acquisition is one HTTPS POST to the authorization server's token
//! endpoint, form-encoded, authenticated with a Basic header.  The transport
//! is an external collaborator: it receives a [`TokenRequest`] (the body and
//! the header, already formed), performs the round trip, and hands the status
//! code and body text to [`parse_token_response`].

use vstd::prelude::*;
use vstd::string::StringExecFns;

use crate::credential::{compute_expires_at, spec_expires_at, AuthFailure, Credential};
use crate::json::{json_of, parse_json, spec_int_member, spec_member, spec_str_member, JsonValue};

verus! {

/// Which grant a token request exercises.
#[derive(Clone, Copy, Debug, PartialEq, Eq, Structural)]
pub enum TokenRequestKind {
    /// `grant_type=client_credentials`: app-only access.
    ClientCredentials,
    /// `grant_type=authorization_code`: one-time exchange of a user's code.
    AuthorizationCode,
    /// `grant_type=refresh_token`: renewal of a user-delegated credential.
    RefreshToken,
}

/// A fully formed token-endpoint request: the form-encoded body and the value
/// of the `Authorization` header.
#[derive(Debug)]
pub struct TokenRequest {
    pub kind: TokenRequestKind,
    pub body: String,
    pub authorization: String,
}

/// What base64-encoding `user:secret` with the standard alphabet yields; a
/// function of the two strings alone.
pub uninterp spec fn basic_token_of(user: Seq<char>, secret: Seq<char>) -> Seq<char>;

/// Relies on base64's `Engine::encode` with the `STANDARD` engine: padded
/// base64 of `user:secret` over the standard alphabet, a function of its
/// input bytes alone.
#[verifier::external_body]
fn encode_basic_credentials(user: &str, secret: &str) -> (r: String)
    ensures
        r@ == basic_token_of(user@, secret@),
{
    base64::Engine::encode(
        &base64::engine::general_purpose::STANDARD,
        format!("{}:{}", user, secret),
    )
}

/// The `Authorization` header presented to the token endpoint.
pub open spec fn spec_basic_authorization(user: Seq<char>, secret: Seq<char>) -> Seq<char> {
    "Basic "@ + basic_token_of(user, secret)
}

/// Builds the `Authorization: Basic ...` header value.
pub fn basic_authorization(user: &str, secret: &str) -> (r: String)
    ensures
        r@ == spec_basic_authorization(user@, secret@),
{
    let mut s: String = "Basic ".to_owned();
    let token = encode_basic_credentials(user, secret);
    s.append(token.as_str());
    s
}

/// Form body of the app-only grant.
pub open spec fn spec_client_credentials_body() -> Seq<char> {
    "grant_type=client_credentials"@
}

/// Form body of the authorization-code grant.
pub open spec fn spec_authorization_code_body(
    code: Seq<char>,
    redirect_uri: Seq<char>,
    client_id: Seq<char>,
    client_secret: Seq<char>,
) -> Seq<char> {
    "grant_type=authorization_code&code="@ + code + "&redirect_uri="@ + redirect_uri
        + "&client_id="@ + client_id + "&client_secret="@ + client_secret
}

/// Form body of the refresh-token grant.
pub open spec fn spec_refresh_body(
    refresh_token: Seq<char>,
    client_id: Seq<char>,
    client_secret: Seq<char>,
) -> Seq<char> {
    "grant_type=refresh_token&refresh_token="@ + refresh_token + "&client_id="@ + client_id
        + "&client_secret="@ + client_secret
}

/// The request that mints an app-only credential.
pub fn client_credentials_request(client_id: &str, client_secret: &str) -> (r: TokenRequest)
    ensures
        r.kind == TokenRequestKind::ClientCredentials,
        r.body@ == spec_client_credentials_body(),
        r.authorization@ == spec_basic_authorization(client_id@, client_secret@),
{
    TokenRequest {
        kind: TokenRequestKind::ClientCredentials,
        body: "grant_type=client_credentials".to_owned(),
        authorization: basic_authorization(client_id, client_secret),
    }
}

/// The request that exchanges a one-time authorization code.
pub fn authorization_code_request(
    client_id: &str,
    client_secret: &str,
    code: &str,
    redirect_uri: &str,
) -> (r: TokenRequest)
    ensures
        r.kind == TokenRequestKind::AuthorizationCode,
        r.body@ == spec_authorization_code_body(code@, redirect_uri@, client_id@, client_secret@),
        r.authorization@ == spec_basic_authorization(client_id@, client_secret@),
{
    let mut body: String = "grant_type=authorization_code&code=".to_owned();
    body.append(code);
    body.append("&redirect_uri=");
    body.append(redirect_uri);
    body.append("&client_id=");
    body.append(client_id);
    body.append("&client_secret=");
    body.append(client_secret);
    TokenRequest {
        kind: TokenRequestKind::AuthorizationCode,
        body,
        authorization: basic_authorization(client_id, client_secret),
    }
}

/// The request that renews a credential from its refresh token.
pub fn refresh_request(client_id: &str, client_secret: &str, refresh_token: &str) -> (r:
    TokenRequest)
    ensures
        r.kind == TokenRequestKind::RefreshToken,
        r.body@ == spec_refresh_body(refresh_token@, client_id@, client_secret@),
        r.authorization@ == spec_basic_authorization(client_id@, client_secret@),
{
    let mut body: String = "grant_type=refresh_token&refresh_token=".to_owned();
    body.append(refresh_token);
    body.append("&client_id=");
    body.append(client_id);
    body.append("&client_secret=");
    body.append(client_secret);
    TokenRequest {
        kind: TokenRequestKind::RefreshToken,
        body,
        authorization: basic_authorization(client_id, client_secret),
    }
}

/// Outcome of a 2xx token response parsed as `v`: the minted credential, or
/// `MalformedResponse` where a required field (`access_token`, `token_type`,
/// `scope`, `expires_in`) is absent or of the wrong type, the access token is
/// empty, or a present `refresh_token` is not a string.  An app-only grant
/// never carries a refresh token out.
pub open spec fn spec_token_success(kind: TokenRequestKind, v: JsonValue, now: u64) -> Result<
    Credential,
    AuthFailure,
> {
    match (
        spec_str_member(v, "access_token"@),
        spec_str_member(v, "token_type"@),
        spec_str_member(v, "scope"@),
        spec_int_member(v, "expires_in"@),
    ) {
        (Some(at), Some(tt), Some(sc), Some(ei)) => {
            if at@.len() == 0 {
                Err(AuthFailure::MalformedResponse)
            } else {
                let expires_at = spec_expires_at(
                    now,
                    if ei <= 0 {
                        0u64
                    } else {
                        ei as u64
                    },
                );
                match spec_member(v, "refresh_token"@) {
                    None => Ok(
                        Credential {
                            access_token: at,
                            refresh_token: None,
                            token_type: tt,
                            scope: sc,
                            expires_at,
                        },
                    ),
                    Some(JsonValue::Str(rt)) => Ok(
                        Credential {
                            access_token: at,
                            refresh_token: if kind == TokenRequestKind::ClientCredentials {
                                None
                            } else {
                                Some(rt)
                            },
                            token_type: tt,
                            scope: sc,
                            expires_at,
                        },
                    ),
                    Some(_) => Err(AuthFailure::MalformedResponse),
                }
            }
        },
        _ => Err(AuthFailure::MalformedResponse),
    }
}

/// Failure reported for a non-2xx token response: the provider's OAuth error
/// when the body parses as the error envelope (an object with a string
/// `error`, and optionally a string `error_description`), else the raw status
/// and body.
pub open spec fn spec_token_error(status: u16, body: String, j: Option<JsonValue>) -> AuthFailure {
    match j {
        Some(v) => match spec_str_member(v, "error"@) {
            Some(code) => AuthFailure::AuthError {
                code,
                description: spec_str_member(v, "error_description"@),
            },
            None => AuthFailure::HttpStatusError { status, body },
        },
        None => AuthFailure::HttpStatusError { status, body },
    }
}

/// Outcome of one token-endpoint round trip, as a function of the grant kind,
/// the HTTP status, the body text, and the time of issue.
pub open spec fn spec_token_outcome(
    kind: TokenRequestKind,
    status: u16,
    body: String,
    now: u64,
) -> Result<Credential, AuthFailure> {
    let j = json_of(body@);
    if 200 <= status < 300 {
        match j {
            Some(v) => spec_token_success(kind, v, now),
            None => Err(AuthFailure::MalformedResponse),
        }
    } else {
        Err(spec_token_error(status, body, j))
    }
}

/// Reads a minted credential out of an already parsed 2xx token response.
pub fn credential_from_json(kind: TokenRequestKind, v: &JsonValue, now: u64) -> (r: Result<
    Credential,
    AuthFailure,
>)
    ensures
        r == spec_token_success(kind, *v, now),
{
    let at = match v.str_member("access_token") {
        Some(s) => s,
        None => { return Err(AuthFailure::MalformedResponse) },
    };
    let tt = match v.str_member("token_type") {
        Some(s) => s,
        None => { return Err(AuthFailure::MalformedResponse) },
    };
    let sc = match v.str_member("scope") {
        Some(s) => s,
        None => { return Err(AuthFailure::MalformedResponse) },
    };
    let ei = match v.int_member("expires_in") {
        Some(n) => n,
        None => { return Err(AuthFailure::MalformedResponse) },
    };
    if at.as_str().is_empty() {
        return Err(AuthFailure::MalformedResponse);
    }
    let lifetime: u64 = if ei <= 0 {
        0u64
    } else {
        ei as u64
    };
    let expires_at = compute_expires_at(now, lifetime);
    let refresh_token: Option<String> = match v.member("refresh_token") {
        None => None,
        Some(JsonValue::Str(rt)) => {
            if kind == TokenRequestKind::ClientCredentials {
                None
            } else {
                Some(rt.clone())
            }
        },
        Some(_) => { return Err(AuthFailure::MalformedResponse) },
    };
    Ok(
        Credential {
            access_token: at.clone(),
            refresh_token,
            token_type: tt.clone(),
            scope: sc.clone(),
            expires_at,
        },
    )
}

/// Classifies one token-endpoint round trip: on 2xx the body must satisfy the
/// token schema; on any other status the body is read as the error envelope
/// when possible, and reported raw otherwise.
pub fn parse_token_response(kind: TokenRequestKind, status: u16, body: String, now: u64) -> (r:
    Result<Credential, AuthFailure>)
    ensures
        r == spec_token_outcome(kind, status, body, now),
{
    let parsed = parse_json(body.as_str());
    if 200 <= status && status < 300 {
        match parsed {
            Some(v) => credential_from_json(kind, &v, now),
            None => Err(AuthFailure::MalformedResponse),
        }
    } else {
        match parsed {
            Some(v) => match v.str_member("error") {
                Some(code) => {
                    let description: Option<String> = match v.str_member("error_description") {
                        Some(d) => Some(d.clone()),
                        None => None,
                    };
                    Err(AuthFailure::AuthError { code: code.clone(), description })
                },
                None => Err(AuthFailure::HttpStatusError { status, body }),
            },
            None => Err(AuthFailure::HttpStatusError { status, body }),
        }
    }
}

} // verus!

