//! Signed, time-boxed session tokens (HS512 JSON Web Tokens).
//!
//! A token binds a user id, a scope and the provider's access token to an
//! expiry time. Tokens are self-contained: checking one needs the signing
//! secret and the current time, and nothing else.
use vstd::prelude::*;
use crate::clock::unix_now;

verus! {

/// What a session token asserts.
pub ghost struct ClaimsView {
    pub user: Seq<char>,
    pub scope: Seq<char>,
    pub token: Seq<char>,
    pub exp: u64,
}

/// The claims carried by a session token.
pub struct Claims {
    /// External identity-provider login of the user.
    pub user: String,
    /// Partition the token is valid for.
    pub scope: String,
    /// The provider's access token, kept so that later calls can reuse it.
    pub token: String,
    /// Expiry, in seconds since the Unix epoch.
    pub exp: u64,
}

impl View for Claims {
    type V = ClaimsView;

    open spec fn view(&self) -> ClaimsView {
        ClaimsView { user: self.user@, scope: self.scope@, token: self.token@, exp: self.exp }
    }
}

/// Why a presented token was not accepted.
#[derive(Debug, Clone, Copy, PartialEq, Eq, Structural)]
pub enum TokenError {
    /// The token is not a well-formed token signed with the secret.
    Malformed,
    /// The token was issued for another scope.
    ScopeMismatch,
    /// The token's expiry lies in the past.
    Expired,
}

/// Why no token could be issued.
#[derive(Debug, Clone, Copy, PartialEq, Eq, Structural)]
pub enum IssueError {
    /// `now + ttl` does not fit in the expiry field.
    ExpiryOutOfRange,
}

#[verifier::external_type_specification]
#[verifier::external_body]
pub struct ExJwtError(jsonwebtoken::errors::Error);

/// The claims that `token` carries when it is a JWT whose HS512 signature
/// checks under `secret` and whose payload holds the four claims with the
/// right JSON types; `None` otherwise. Expiry is not consulted.
pub uninterp spec fn jwt_claims(token: Seq<char>, secret: Seq<u8>) -> Option<ClaimsView>;

/// Relies on `jsonwebtoken::encode` with an HS512 header and an HMAC key made
/// from `secret`. With an HMAC key and header it does not fail: the key family
/// matches the algorithm, a header and a JSON map always serialize, and HMAC
/// signing has no error path. The token it returns is decoded by
/// `jsonwebtoken::decode`, under the same secret and algorithm, to the very
/// claims that were encoded.
#[verifier::external_body]
fn jwt_encode(claims: &Claims, secret: &[u8]) -> (r: Result<String, jsonwebtoken::errors::Error>)
    ensures
        r is Ok,
        r matches Ok(t) ==> jwt_claims(t@, secret@) == Some(claims@),
{
    let mut m = serde_json::Map::new();
    m.insert("user".to_owned(), serde_json::Value::from(claims.user.as_str()));
    m.insert("scope".to_owned(), serde_json::Value::from(claims.scope.as_str()));
    m.insert("token".to_owned(), serde_json::Value::from(claims.token.as_str()));
    m.insert("exp".to_owned(), serde_json::Value::from(claims.exp));
    let header = jsonwebtoken::Header::new(jsonwebtoken::Algorithm::HS512);
    jsonwebtoken::encode(&header, &m, &jsonwebtoken::EncodingKey::from_secret(secret))
}

/// The view of an optional claims value.
pub open spec fn opt_claims_view(c: Option<Claims>) -> Option<ClaimsView> {
    match c {
        Some(c) => Some(c@),
        None => None,
    }
}

/// Relies on `jsonwebtoken::decode` with `Validation::new(HS512)` and its
/// expiry check switched off, so that the result depends on the token and the
/// secret alone; the payload is read as a JSON object with the four claims.
/// (`decode` still reads the system clock and panics if it is set before the
/// Unix epoch.)
#[verifier::external_body]
fn jwt_decode(token: &str, secret: &[u8]) -> (r: Option<Claims>)
    ensures
        opt_claims_view(r) == jwt_claims(token@, secret@),
{
    let mut v = jsonwebtoken::Validation::new(jsonwebtoken::Algorithm::HS512);
    v.validate_exp = false;
    let key = jsonwebtoken::DecodingKey::from_secret(secret);
    let m = jsonwebtoken::decode::<serde_json::Map<String, serde_json::Value>>(token, &key, &v).ok()?.claims;
    let text = |k: &str| m.get(k).and_then(|x| x.as_str()).map(|x| x.to_owned());
    Some(Claims { user: text("user")?, scope: text("scope")?, token: text("token")?, exp: m.get("exp")?.as_u64()? })
}

/// The verdict on a token whose decoding gave `decoded`, checked against the
/// scope of the request and the time `now`.
///
/// A token that does not decode is malformed; one that decodes but whose
/// expiry is before `now` has expired, whatever its scope; otherwise its scope
/// must be the expected one.
pub open spec fn verdict(decoded: Option<ClaimsView>, scope: Seq<char>, now: u64) -> Result<ClaimsView, TokenError> {
    match decoded {
        None => Err(TokenError::Malformed),
        Some(c) => if c.exp < now {
            Err(TokenError::Expired)
        } else if c.scope != scope {
            Err(TokenError::ScopeMismatch)
        } else {
            Ok(c)
        },
    }
}

/// `token` is what issuing for `user`, `scope` and `provider_token` at time
/// `now` with lifetime `ttl` under `secret` gives.
pub open spec fn issued_token(
    token: Seq<char>,
    secret: Seq<u8>,
    user: Seq<char>,
    scope: Seq<char>,
    provider_token: Seq<char>,
    now: u64,
    ttl: u64,
) -> bool {
    &&& now + ttl <= u64::MAX
    &&& jwt_claims(token, secret) == Some(
        ClaimsView { user, scope, token: provider_token, exp: (now + ttl) as u64 },
    )
}

/// Issues a token for `user` in `scope`, embedding `provider_token`, that
/// expires `ttl` seconds after `now`.
pub fn issue_at(user: &str, scope: &str, provider_token: &str, secret: &[u8], ttl: u64, now: u64) -> (r: Result<String, IssueError>)
    ensures
        r == Err::<String, IssueError>(IssueError::ExpiryOutOfRange) <==> now + ttl > u64::MAX,
        now + ttl <= u64::MAX ==> r is Ok,
        r matches Ok(t) ==> issued_token(t@, secret@, user@, scope@, provider_token@, now, ttl),
{
    if ttl > u64::MAX - now {
        return Err(IssueError::ExpiryOutOfRange);
    }
    let claims = Claims {
        user: user.to_owned(),
        scope: scope.to_owned(),
        token: provider_token.to_owned(),
        exp: now + ttl,
    };
    match jwt_encode(&claims, secret) {
        Ok(t) => Ok(t),
        // encoding with an HMAC key does not fail; this arm is never taken
        Err(_) => Err(IssueError::ExpiryOutOfRange),
    }
}

/// Issues a token for `user` in `scope`, embedding `provider_token`, that
/// expires `ttl` seconds from the current time. It fails only when the expiry
/// would not fit, which no lifetime up to `u64::MAX - i64::MAX` can cause.
pub fn create_jwt(user: &str, scope: &str, provider_token: &str, secret: &[u8], ttl: u64) -> (r: Result<String, IssueError>)
    ensures
        r matches Ok(t) ==> exists|now: u64| issued_token(t@, secret@, user@, scope@, provider_token@, now, ttl),
        r matches Err(e) ==> e == IssueError::ExpiryOutOfRange,
        ttl <= u64::MAX - i64::MAX as u64 ==> r is Ok,
{
    let now = unix_now();
    issue_at(user, scope, provider_token, secret, ttl, now)
}

/// The view of a verification result.
pub open spec fn verdict_view(r: Result<Claims, TokenError>) -> Result<ClaimsView, TokenError> {
    match r {
        Ok(c) => Ok(c@),
        Err(e) => Err(e),
    }
}

/// The verdict on decoded claims (`None`: the token did not decode) for a
/// request in `scope` at time `now`.
pub fn judge(decoded: Option<Claims>, scope: &str, now: u64) -> (r: Result<Claims, TokenError>)
    ensures
        verdict_view(r) == verdict(opt_claims_view(decoded), scope@, now),
{
    let claims = match decoded {
        Some(c) => c,
        None => return Err(TokenError::Malformed),
    };
    if claims.exp < now {
        return Err(TokenError::Expired);
    }
    let expected = scope.to_owned();
    if claims.scope != expected {
        return Err(TokenError::ScopeMismatch);
    }
    Ok(claims)
}

/// Checks `token` against `secret`, the request's `scope` and the time `now`.
pub fn verify_at(token: &str, secret: &[u8], scope: &str, now: u64) -> (r: Result<Claims, TokenError>)
    ensures
        verdict_view(r) == verdict(jwt_claims(token@, secret@), scope@, now),
        jwt_claims(token@, secret@) is None ==> r == Err::<Claims, TokenError>(TokenError::Malformed),
        jwt_claims(token@, secret@) matches Some(c) && c.exp < now ==> r == Err::<Claims, TokenError>(TokenError::Expired),
        jwt_claims(token@, secret@) matches Some(c) && now <= c.exp && c.scope == scope@
            ==> (r matches Ok(k) && k@ == jwt_claims(token@, secret@)->Some_0),
{
    judge(jwt_decode(token, secret), scope, now)
}

/// A token issued at `now` with lifetime `ttl` verifies, under the same secret
/// and with the scope it was issued for, to the user and provider token it was
/// issued for, at every time from `now` up to its expiry.
pub proof fn lemma_issue_verify_round_trip(
    token: Seq<char>,
    secret: Seq<u8>,
    user: Seq<char>,
    scope: Seq<char>,
    provider_token: Seq<char>,
    now: u64,
    ttl: u64,
    later: u64,
)
    requires
        issued_token(token, secret, user, scope, provider_token, now, ttl),
        now <= later <= now + ttl,
    ensures
        verdict(jwt_claims(token, secret), scope, later) matches Ok(c)
            && c.user == user && c.token == provider_token && c.scope == scope,
{
}

} // verus!
