//! The token service: issues and verifies signed, expiring identity tokens.
//!
//! A token is a compact HS256 JSON Web Token whose payload carries the
//! subject, the expiry instant and the kind of the token. Signing and
//! signature checking are done by the `jsonwebtoken` crate; which secret is
//! used, when a token expires and which payloads are accepted is decided here.

use vstd::prelude::*;
use crate::clock::{unix_now, CLOCK_LIMIT};
use crate::text::{opt_view, str_eq};

verus! {

/// Seconds an access token stays valid: fifteen minutes.
pub const ACCESS_TOKEN_LIFETIME: u64 = 900;

/// Seconds a refresh token stays valid: seven days.
pub const REFRESH_TOKEN_LIFETIME: u64 = 604_800;

/// The two kinds of token.
#[derive(Clone, Copy, Debug, PartialEq, Eq, Structural)]
pub enum TokenKind {
    Access,
    Refresh,
}

impl TokenKind {
    /// How long a token of this kind stays valid, in seconds.
    pub open spec fn lifetime(self) -> u64 {
        match self {
            TokenKind::Access => ACCESS_TOKEN_LIFETIME,
            TokenKind::Refresh => REFRESH_TOKEN_LIFETIME,
        }
    }

    /// The text that names this kind in a token's payload.
    pub open spec fn label(self) -> Seq<char> {
        match self {
            TokenKind::Access => "access"@,
            TokenKind::Refresh => "refresh"@,
        }
    }

    pub fn lifetime_secs(self) -> (secs: u64)
        ensures
            secs == self.lifetime(),
    {
        match self {
            TokenKind::Access => ACCESS_TOKEN_LIFETIME,
            TokenKind::Refresh => REFRESH_TOKEN_LIFETIME,
        }
    }

    pub fn as_str(self) -> (text: &'static str)
        ensures
            text@ == self.label(),
    {
        match self {
            TokenKind::Access => "access",
            TokenKind::Refresh => "refresh",
        }
    }
}

/// The payload of a token.
#[derive(Debug, PartialEq, Eq)]
pub struct Claims {
    /// The identity the token speaks for.
    pub sub: String,
    /// The instant, in seconds since the epoch, from which the token is no longer valid.
    pub exp: u64,
    /// The label of the token's kind.
    pub token_type: String,
}

/// What a `Claims` value holds.
pub struct ClaimsView {
    pub sub: Seq<char>,
    pub exp: u64,
    pub token_type: Seq<char>,
}

impl View for Claims {
    type V = ClaimsView;

    open spec fn view(&self) -> ClaimsView {
        ClaimsView { sub: self.sub@, exp: self.exp, token_type: self.token_type@ }
    }
}

impl Clone for Claims {
    fn clone(&self) -> (copy: Claims)
        ensures
            copy@ == self@,
    {
        Claims { sub: self.sub.clone(), exp: self.exp, token_type: self.token_type.clone() }
    }
}

/// The claims of a token of kind `kind` issued to `subject` at `now`.
pub open spec fn issued_claims(subject: Seq<char>, kind: TokenKind, now: u64) -> ClaimsView {
    ClaimsView { sub: subject, exp: (now + kind.lifetime()) as u64, token_type: kind.label() }
}

impl Claims {
    /// The claims of a token of kind `kind` issued to `subject` at `now`.
    pub fn issued(subject: &str, kind: TokenKind, now: u64) -> (claims: Claims)
        requires
            now + kind.lifetime() <= u64::MAX,
        ensures
            claims@ == issued_claims(subject@, kind, now),
            claims.exp > now,
            kind_of_label(claims.token_type@) == Some(kind),
    {
        proof {
            lemma_label_names_its_kind(kind);
        }
        Claims {
            sub: subject.to_owned(),
            exp: now + kind.lifetime_secs(),
            token_type: kind.as_str().to_owned(),
        }
    }

    /// The kind this payload names, if its label is one of the two.
    pub fn kind(&self) -> (kind: Option<TokenKind>)
        ensures
            kind == kind_of_label(self.token_type@),
    {
        if str_eq(self.token_type.as_str(), "access") {
            Some(TokenKind::Access)
        } else if str_eq(self.token_type.as_str(), "refresh") {
            Some(TokenKind::Refresh)
        } else {
            None
        }
    }
}

/// The kind that a label names.
pub open spec fn kind_of_label(label: Seq<char>) -> Option<TokenKind> {
    if label == TokenKind::Access.label() {
        Some(TokenKind::Access)
    } else if label == TokenKind::Refresh.label() {
        Some(TokenKind::Refresh)
    } else {
        None
    }
}

/// The two labels differ, so the label of a kind names that kind and no other.
pub proof fn lemma_label_names_its_kind(kind: TokenKind)
    ensures
        kind_of_label(kind.label()) == Some(kind),
{
    reveal_strlit("access");
    reveal_strlit("refresh");
    assert("access"@.len() == 6);
    assert("refresh"@.len() == 7);
}

/// Why the token service refused.
#[derive(Clone, Copy, Debug, PartialEq, Eq, Structural)]
pub enum TokenError {
    /// The token is malformed, carries a wrong signature, lacks a claim or has expired.
    InvalidToken,
    /// The signing layer could not produce a token.
    InternalSigningFailure,
}

/// Which of the two required secrets was not supplied.
#[derive(Clone, Copy, Debug, PartialEq, Eq, Structural)]
pub enum ConfigError {
    MissingAccessSecret,
    MissingRefreshSecret,
}

/// The two signing secrets, fixed when the service starts.
#[derive(Debug)]
pub struct TokenConfig {
    pub access_secret: String,
    pub refresh_secret: String,
}

/// What a `TokenConfig` holds.
pub struct TokenConfigView {
    pub access_secret: Seq<char>,
    pub refresh_secret: Seq<char>,
}

impl View for TokenConfig {
    type V = TokenConfigView;

    open spec fn view(&self) -> TokenConfigView {
        TokenConfigView {
            access_secret: self.access_secret@,
            refresh_secret: self.refresh_secret@,
        }
    }
}

impl Clone for TokenConfig {
    fn clone(&self) -> (copy: TokenConfig)
        ensures
            copy@ == self@,
    {
        TokenConfig {
            access_secret: self.access_secret.clone(),
            refresh_secret: self.refresh_secret.clone(),
        }
    }
}

impl TokenConfig {
    /// The secret under which tokens of kind `kind` are signed.
    pub open spec fn secret_for(&self, kind: TokenKind) -> Seq<char> {
        match kind {
            TokenKind::Access => self.access_secret@,
            TokenKind::Refresh => self.refresh_secret@,
        }
    }

    pub fn new(access_secret: String, refresh_secret: String) -> (config: TokenConfig)
        ensures
            config.access_secret@ == access_secret@,
            config.refresh_secret@ == refresh_secret@,
    {
        TokenConfig { access_secret, refresh_secret }
    }

    /// Builds the configuration from the two values the environment may hold.
    /// Both are required; the access secret is looked at first.
    pub fn from_values(access_secret: Option<String>, refresh_secret: Option<String>) -> (r: Result<
        TokenConfig,
        ConfigError,
    >)
        ensures
            match r {
                Ok(config) => access_secret matches Some(a) && refresh_secret matches Some(b)
                    && config.access_secret@ == a@ && config.refresh_secret@ == b@,
                Err(ConfigError::MissingAccessSecret) => access_secret is None,
                Err(ConfigError::MissingRefreshSecret) => access_secret is Some
                    && refresh_secret is None,
            },
    {
        match access_secret {
            None => Err(ConfigError::MissingAccessSecret),
            Some(a) => match refresh_secret {
                None => Err(ConfigError::MissingRefreshSecret),
                Some(b) => Ok(TokenConfig { access_secret: a, refresh_secret: b }),
            },
        }
    }

    pub fn secret(&self, kind: TokenKind) -> (secret: &str)
        ensures
            secret@ == self.secret_for(kind),
    {
        match kind {
            TokenKind::Access => self.access_secret.as_str(),
            TokenKind::Refresh => self.refresh_secret.as_str(),
        }
    }
}

/// The three claims as they come out of a token whose signature held: each is
/// there only if the payload has it with the right JSON type.
#[derive(Debug)]
pub struct DecodedPayload {
    pub sub: Option<String>,
    pub exp: Option<u64>,
    pub token_type: Option<String>,
}

/// What a `DecodedPayload` holds.
pub struct DecodedPayloadView {
    pub sub: Option<Seq<char>>,
    pub exp: Option<u64>,
    pub token_type: Option<Seq<char>>,
}

impl View for DecodedPayload {
    type V = DecodedPayloadView;

    open spec fn view(&self) -> DecodedPayloadView {
        DecodedPayloadView {
            sub: opt_view(self.sub),
            exp: self.exp,
            token_type: opt_view(self.token_type),
        }
    }
}

/// The payload in which all three claims of `claims` are present.
pub open spec fn payload_of(claims: ClaimsView) -> DecodedPayloadView {
    DecodedPayloadView {
        sub: Some(claims.sub),
        exp: Some(claims.exp),
        token_type: Some(claims.token_type),
    }
}

#[verifier::external_type_specification]
#[verifier::external_body]
pub struct ExJwtError(jsonwebtoken::errors::Error);

/// The token that `jsonwebtoken::encode` makes of the claims under the secret
/// with the default (HS256) header, or `None` where it reports an error.
pub uninterp spec fn hs256_token(claims: ClaimsView, secret: Seq<char>) -> Option<Seq<char>>;

/// What `jsonwebtoken::decode` finds in a token under a secret when it checks
/// everything but the expiry: the three claims of the payload, or `None`
/// where it reports an error.
pub uninterp spec fn hs256_payload(token: Seq<char>, secret: Seq<char>) -> Option<
    DecodedPayloadView,
>;

/// `token` is the signed form of `claims` under `secret`, and reads back as such.
pub open spec fn signs(token: Seq<char>, claims: ClaimsView, secret: Seq<char>) -> bool {
    &&& hs256_token(claims, secret) == Some(token)
    &&& hs256_payload(token, secret) == Some(payload_of(claims))
}

/// Signs the claims with `jsonwebtoken::encode`, under the default header
/// (HS256) and the bytes of `secret` as the key. The payload is the JSON
/// object with the members `sub`, `exp` and `token_type`, in this order.
///
/// Trusted: the outcome is a function of the claims and the secret alone
/// (`hs256_token`), and a token that `encode` returns is one that `decode`
/// accepts under the same secret, with the same three claims: `decode`
/// recomputes the signature over the first two parts and reads the payload
/// back from the JSON that `encode` wrote.
#[verifier::external_body]
fn hs256_sign(claims: &Claims, secret: &str) -> (r: Result<String, jsonwebtoken::errors::Error>)
    ensures
        r matches Ok(token) ==> signs(token@, claims@, secret@),
        r is Err ==> hs256_token(claims@, secret@) is None,
{
    let mut payload = serde_json::Map::new();
    payload.insert("sub".to_owned(), serde_json::Value::from(claims.sub.as_str()));
    payload.insert("exp".to_owned(), serde_json::Value::from(claims.exp));
    payload.insert("token_type".to_owned(), serde_json::Value::from(claims.token_type.as_str()));
    let key = jsonwebtoken::EncodingKey::from_secret(secret.as_bytes());
    jsonwebtoken::encode(&jsonwebtoken::Header::default(), &payload, &key)
}

/// Checks a token with `jsonwebtoken::decode` under the default validation
/// (HS256, `exp` required) with the expiry check switched off, and hands out
/// the three claims of its payload.
///
/// Trusted: with the expiry check off `decode` does not read the clock, so
/// the outcome is a function of the token and the secret alone
/// (`hs256_payload`).
#[verifier::external_body]
fn hs256_decode(token: &str, secret: &str) -> (r: Result<
    DecodedPayload,
    jsonwebtoken::errors::Error,
>)
    ensures
        r matches Ok(payload) ==> hs256_payload(token@, secret@) == Some(payload@),
        r is Err ==> hs256_payload(token@, secret@) is None,
{
    let mut validation = jsonwebtoken::Validation::default();
    validation.validate_exp = false;
    let key = jsonwebtoken::DecodingKey::from_secret(secret.as_bytes());
    let data = jsonwebtoken::decode::<serde_json::Value>(token, &key, &validation)?;
    Ok(DecodedPayload {
        sub: data.claims.get("sub").and_then(|v| v.as_str()).map(|s| s.to_owned()),
        exp: data.claims.get("exp").and_then(|v| v.as_u64()),
        token_type: data.claims.get("token_type").and_then(|v| v.as_str()).map(|s| s.to_owned()),
    })
}

/// The outcome of a call as contracts speak of it: the characters of the
/// token, or the error.
pub open spec fn token_result(r: Result<String, TokenError>) -> Result<Seq<char>, TokenError> {
    match r {
        Ok(token) => Ok(token@),
        Err(e) => Err(e),
    }
}

/// The outcome of a call as contracts speak of it: what the claims hold, or
/// the error.
pub open spec fn claims_result(r: Result<Claims, TokenError>) -> Result<ClaimsView, TokenError> {
    match r {
        Ok(claims) => Ok(claims@),
        Err(e) => Err(e),
    }
}

/// What issuing a token of kind `kind` to `subject` at `now` yields: the
/// claims expire one lifetime after `now` and are signed under the secret of
/// the kind.
pub open spec fn issue_spec(config: &TokenConfig, subject: Seq<char>, kind: TokenKind, now: u64)
    -> Result<Seq<char>, TokenError> {
    match hs256_token(issued_claims(subject, kind, now), config.secret_for(kind)) {
        Some(token) => Ok(token),
        None => Err(TokenError::InternalSigningFailure),
    }
}

/// The claims that a payload yields at `now`: all three must be there, and
/// the expiry must lie strictly after `now`.
pub open spec fn accepted_claims(payload: DecodedPayloadView, now: u64) -> Result<
    ClaimsView,
    TokenError,
> {
    if payload.sub is Some && payload.exp is Some && payload.token_type is Some && now
        < payload.exp->0 {
        Ok(ClaimsView { sub: payload.sub->0, exp: payload.exp->0, token_type: payload.token_type->0 })
    } else {
        Err(TokenError::InvalidToken)
    }
}

/// What verifying `token` at `now` yields. The signature is always checked
/// against the access secret, whatever kind the token claims to be.
pub open spec fn verify_spec(config: &TokenConfig, token: Seq<char>, now: u64) -> Result<
    ClaimsView,
    TokenError,
> {
    match hs256_payload(token, config.access_secret@) {
        Some(payload) => accepted_claims(payload, now),
        None => Err(TokenError::InvalidToken),
    }
}

/// Turns the payload of a token whose signature held into claims, or refuses
/// it: a payload that lacks one of the three claims is invalid, and so is one
/// whose expiry is `now` or earlier.
pub fn accept_payload(payload: DecodedPayload, now: u64) -> (r: Result<Claims, TokenError>)
    ensures
        claims_result(r) == accepted_claims(payload@, now),
{
    match (payload.sub, payload.exp, payload.token_type) {
        (Some(sub), Some(exp), Some(token_type)) => {
            if now < exp {
                Ok(Claims { sub, exp, token_type })
            } else {
                Err(TokenError::InvalidToken)
            }
        },
        _ => Err(TokenError::InvalidToken),
    }
}

/// Issues a token of kind `kind` to `subject`, as of the instant `now`.
pub fn issue_at(config: &TokenConfig, subject: &str, kind: TokenKind, now: u64) -> (r: Result<
    String,
    TokenError,
>)
    requires
        now + kind.lifetime() <= u64::MAX,
    ensures
        token_result(r) == issue_spec(config, subject@, kind, now),
        r matches Ok(token) ==> signs(
            token@,
            issued_claims(subject@, kind, now),
            config.secret_for(kind),
        ),
{
    let claims = Claims::issued(subject, kind, now);
    match hs256_sign(&claims, config.secret(kind)) {
        Ok(token) => Ok(token),
        Err(_) => Err(TokenError::InternalSigningFailure),
    }
}

/// Issues a token of kind `kind` to `subject`, as of the current time.
pub fn issue(config: &TokenConfig, subject: &str, kind: TokenKind) -> (r: Result<
    String,
    TokenError,
>)
    ensures
        exists|now: u64|
            now < CLOCK_LIMIT && #[trigger] issue_spec(config, subject@, kind, now) == token_result(
                r,
            ) && (r matches Ok(token) ==> signs(
                token@,
                issued_claims(subject@, kind, now),
                config.secret_for(kind),
            )),
{
    let now = unix_now();
    issue_at(config, subject, kind, now)
}

/// Issues an access token to `user_id`: it expires fifteen minutes from now.
pub fn create_access_token(config: &TokenConfig, user_id: &str) -> (r: Result<String, TokenError>)
    ensures
        exists|now: u64|
            now < CLOCK_LIMIT && #[trigger] issue_spec(config, user_id@, TokenKind::Access, now)
                == token_result(r) && (r matches Ok(token) ==> signs(
                token@,
                issued_claims(user_id@, TokenKind::Access, now),
                config.access_secret@,
            )),
{
    issue(config, user_id, TokenKind::Access)
}

/// Issues a refresh token to `user_id`: it expires seven days from now.
pub fn create_refresh_token(config: &TokenConfig, user_id: &str) -> (r: Result<String, TokenError>)
    ensures
        exists|now: u64|
            now < CLOCK_LIMIT && #[trigger] issue_spec(config, user_id@, TokenKind::Refresh, now)
                == token_result(r) && (r matches Ok(token) ==> signs(
                token@,
                issued_claims(user_id@, TokenKind::Refresh, now),
                config.refresh_secret@,
            )),
{
    issue(config, user_id, TokenKind::Refresh)
}

/// Verifies `token` as of the instant `now`.
pub fn verify_token_at(config: &TokenConfig, token: &str, now: u64) -> (r: Result<
    Claims,
    TokenError,
>)
    ensures
        claims_result(r) == verify_spec(config, token@, now),
{
    match hs256_decode(token, config.access_secret.as_str()) {
        Ok(payload) => accept_payload(payload, now),
        Err(_) => Err(TokenError::InvalidToken),
    }
}

/// Verifies `token` as of the current time.
pub fn verify_token(config: &TokenConfig, token: &str) -> (r: Result<Claims, TokenError>)
    ensures
        exists|now: u64|
            now < CLOCK_LIMIT && #[trigger] verify_spec(config, token@, now) == claims_result(r),
        r matches Err(e) ==> e == TokenError::InvalidToken,
        hs256_payload(token@, config.access_secret@) is None ==> r is Err,
        r matches Ok(claims) ==> hs256_payload(token@, config.access_secret@) == Some(
            payload_of(claims@),
        ),
{
    let now = unix_now();
    verify_token_at(config, token, now)
}

/// A token verifies for exactly one lifetime. If `token` is what issuing to
/// `subject` at `now` gave, and tokens of its kind are signed under the
/// secret that verification checks, then verifying it at `later` yields the
/// issued claims, with `subject` as their subject, as long as `later` lies
/// before the expiry, and fails from the expiry instant on.
pub proof fn lemma_issued_token_verifies(
    config: &TokenConfig,
    subject: Seq<char>,
    kind: TokenKind,
    now: u64,
    later: u64,
    token: Seq<char>,
)
    requires
        now + kind.lifetime() <= u64::MAX,
        signs(token, issued_claims(subject, kind, now), config.secret_for(kind)),
        config.secret_for(kind) == config.access_secret@,
    ensures
        later < now + kind.lifetime() ==> verify_spec(config, token, later) == Ok::<
            ClaimsView,
            TokenError,
        >(issued_claims(subject, kind, now)),
        later < now + kind.lifetime() ==> verify_spec(config, token, later)->Ok_0.sub == subject,
        later >= now + kind.lifetime() ==> verify_spec(config, token, later) == Err::<
            ClaimsView,
            TokenError,
        >(TokenError::InvalidToken),
{
}

/// Tokens expire at their instant, to the second: an access token fifteen
/// minutes after it was issued, a refresh token seven days after. One second
/// before that instant the token still verifies; at the instant it no longer
/// does.
pub proof fn lemma_token_expires_at_its_instant(
    config: &TokenConfig,
    subject: Seq<char>,
    kind: TokenKind,
    now: u64,
    token: Seq<char>,
)
    requires
        now + kind.lifetime() <= u64::MAX,
        signs(token, issued_claims(subject, kind, now), config.secret_for(kind)),
        config.secret_for(kind) == config.access_secret@,
    ensures
        kind == TokenKind::Access ==> issued_claims(subject, kind, now).exp == now + 15 * 60,
        kind == TokenKind::Refresh ==> issued_claims(subject, kind, now).exp == now + 7 * 24 * 60
            * 60,
        verify_spec(config, token, (issued_claims(subject, kind, now).exp - 1) as u64) is Ok,
        verify_spec(config, token, issued_claims(subject, kind, now).exp) is Err,
{
    let expiry = issued_claims(subject, kind, now).exp;
    lemma_issued_token_verifies(config, subject, kind, now, (expiry - 1) as u64, token);
    lemma_issued_token_verifies(config, subject, kind, now, expiry, token);
}

/// No token is accepted at or after the expiry that its payload states,
/// whatever its signature: claims that come out of verification expire
/// strictly after the instant of verification, and a token that fails at one
/// instant fails at every later one.
pub proof fn lemma_expired_token_rejected(
    config: &TokenConfig,
    token: Seq<char>,
    now: u64,
    later: u64,
)
    ensures
        verify_spec(config, token, now) matches Ok(claims) ==> now < claims.exp,
        hs256_payload(token, config.access_secret@) matches Some(payload) && payload.exp matches Some(
            exp,
        ) && exp <= now ==> verify_spec(config, token, now) == Err::<ClaimsView, TokenError>(
            TokenError::InvalidToken,
        ),
        now <= later && verify_spec(config, token, now) is Err ==> verify_spec(
            config,
            token,
            later,
        ) is Err,
{
}

/// Two tokens signed under one secret are the same only if their claims are.
pub proof fn lemma_tokens_differ(
    first: Seq<char>,
    first_claims: ClaimsView,
    second: Seq<char>,
    second_claims: ClaimsView,
    secret: Seq<char>,
)
    requires
        signs(first, first_claims, secret),
        signs(second, second_claims, secret),
        first_claims != second_claims,
    ensures
        first != second,
{
    if first == second {
        assert(payload_of(first_claims) == payload_of(second_claims));
        assert(first_claims.sub == payload_of(first_claims).sub->0);
        assert(first_claims.token_type == payload_of(first_claims).token_type->0);
        assert(first_claims.exp == payload_of(first_claims).exp->0);
        assert(first_claims == second_claims);
    }
}

} // verus!
