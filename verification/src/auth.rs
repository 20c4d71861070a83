use vstd::prelude::*;
use crate::app_state::AppState;
use crate::dto::{LoginRequest, LoginResponse};

verus! {

/// Lifetime of a session token, in seconds (24 hours).
pub const TOKEN_LIFETIME_SECS: u64 = 86400;

/// What a session token asserts: who logged in, and the instant (seconds
/// since the Unix epoch) from which the token is no longer accepted.
pub struct Claims {
    pub sub: String,
    pub exp: u64,
}

/// The compact HS256 token that `jsonwebtoken::encode` produces for the claims
/// `{sub, exp}` under the given secret, or `None` where it reports an error
/// (which, by the signing wrapper's contract, it never does for these claims).
pub uninterp spec fn jwt_token(sub: Seq<char>, exp: u64, secret: Seq<char>) -> Option<Seq<char>>;

/// The claims `(sub, exp)` that `jsonwebtoken::decode` accepts from a token
/// under the given secret with HS256 and no check of the expiry against a
/// clock, or `None` where the token is malformed, its header names another
/// algorithm, its signature does not verify, it carries an audience claim
/// (none is expected), or it does not carry a textual `sub` and an unsigned
/// `exp`.
pub uninterp spec fn jwt_claims(token: Seq<char>, secret: Seq<char>) -> Option<(Seq<char>, u64)>;

/// A token as a plain value.
pub open spec fn token_view(token: Option<String>) -> Option<Seq<char>> {
    match token {
        Some(t) => Some(t@),
        None => None,
    }
}

/// Claims as a plain value.
pub open spec fn claims_view(claims: Option<Claims>) -> Option<(Seq<char>, u64)> {
    match claims {
        Some(c) => Some((c.sub@, c.exp)),
        None => None,
    }
}

/// Signs the claims `{sub, exp}` with `jsonwebtoken::encode`, default header
/// (HS256), the secret's bytes as the HMAC key.
///
/// Trusted: the result is the named token. Signing succeeds: the encoder
/// fails only where the key's family differs from the header's algorithm,
/// where the header or the claims cannot be written as JSON, or where the
/// signing primitive fails, and none of these can happen with an HMAC key,
/// the default header and a map of one string and one unsigned integer. And
/// a token signed under a secret decodes under the same secret to the
/// claims that were signed (the decoder recomputes the same HMAC over the
/// same two segments and parses the JSON that the encoder wrote).
#[verifier::external_body]
fn sign_claims(sub: &str, exp: u64, secret: &str) -> (token: Option<String>)
    ensures
        token is Some,
        token_view(token) == jwt_token(sub@, exp, secret@),
        token matches Some(t) ==> jwt_claims(t@, secret@) == Some((sub@, exp)),
{
    let mut claims = serde_json::Map::new();
    claims.insert("sub".to_string(), serde_json::Value::from(sub));
    claims.insert("exp".to_string(), serde_json::Value::from(exp));
    let key = jsonwebtoken::EncodingKey::from_secret(secret.as_bytes());
    jsonwebtoken::encode(&jsonwebtoken::Header::default(), &claims, &key).ok()
}

/// Decodes a token with `jsonwebtoken::decode`: HS256, the secret's bytes as
/// the HMAC key, that crate's own expiry validation switched off (the
/// caller compares `exp` with its clock, without leeway).
///
/// Trusted: the result is the named claims.
#[verifier::external_body]
fn decode_claims(token: &str, secret: &str) -> (claims: Option<Claims>)
    ensures
        claims_view(claims) == jwt_claims(token@, secret@),
{
    let mut validation = jsonwebtoken::Validation::default();
    validation.validate_exp = false;
    let key = jsonwebtoken::DecodingKey::from_secret(secret.as_bytes());
    match jsonwebtoken::decode::<serde_json::Value>(token, &key, &validation) {
        Ok(data) => match (data.claims["sub"].as_str(), data.claims["exp"].as_u64()) {
            (Some(sub), Some(exp)) => Some(Claims { sub: sub.to_string(), exp }),
            _ => None,
        },
        Err(_) => None,
    }
}

/// Reads the wall clock with `std::time::SystemTime::now`, converts the
/// reading with chrono's `From<SystemTime>` for `DateTime<Utc>` and returns
/// its Unix timestamp in seconds. A clock that is set before the epoch
/// gives a negative timestamp. Nothing is claimed of the reading.
#[verifier::external_body]
pub(crate) fn unix_clock() -> (reading: i64) {
    chrono::DateTime::<chrono::Utc>::from(std::time::SystemTime::now()).timestamp()
}

/// The latest instant that a clock reading can stand for.
pub const LATEST_READING: u64 = 0x7FFF_FFFF_FFFF_FFFF;

/// A clock reading as seconds since the epoch; a reading before the epoch
/// counts as the epoch itself.
pub open spec fn epoch_seconds(reading: i64) -> u64 {
    if reading < 0 {
        0
    } else {
        reading as u64
    }
}

/// Converts a clock reading to seconds since the epoch.
pub fn seconds_since_epoch(reading: i64) -> (now: u64)
    ensures
        now == epoch_seconds(reading),
        now <= LATEST_READING,
{
    if reading < 0 {
        0
    } else {
        reading as u64
    }
}

/// Compares two texts for equality without stopping at the first
/// difference: once the lengths agree, every byte of both is examined and
/// the differences are accumulated, so the work done does not depend on
/// where the texts differ.
pub fn constant_time_eq(a: &str, b: &str) -> (same: bool)
    ensures
        same == (a@ == b@),
{
    let x = a.as_bytes();
    let y = b.as_bytes();
    proof {
        vstd::utf8::encode_utf8_decode_utf8(a@);
        vstd::utf8::encode_utf8_decode_utf8(b@);
    }
    if x.len() != y.len() {
        return false;
    }
    let mut diff: u8 = 0;
    let mut i: usize = 0;
    while i < x.len()
        invariant
            x@.len() == y@.len(),
            0 <= i <= x@.len(),
            diff == 0 <==> x@.subrange(0, i as int) =~= y@.subrange(0, i as int),
        decreases x@.len() - i,
    {
        let p: u8 = x[i];
        let q: u8 = y[i];
        let ghost before = diff;
        diff = diff | (p ^ q);
        assert((before | (p ^ q)) == 0 <==> (before == 0 && p == q)) by (bit_vector);
        proof {
            let xs = x@.subrange(0, i as int);
            let ys = y@.subrange(0, i as int);
            let xs1 = x@.subrange(0, i + 1);
            let ys1 = y@.subrange(0, i + 1);
            assert(xs1 =~= xs.push(p));
            assert(ys1 =~= ys.push(q));
            if xs1 == ys1 {
                assert(xs1[i as int] == ys1[i as int]);
                assert(xs =~= xs1.subrange(0, i as int));
                assert(ys =~= ys1.subrange(0, i as int));
            }
        }
        i += 1;
    }
    assert(x@.subrange(0, i as int) =~= x@);
    assert(y@.subrange(0, i as int) =~= y@);
    diff == 0
}

/// Whether the request carries exactly the configured credential pair.
pub open spec fn credentials_match(req: &LoginRequest, state: &AppState) -> bool {
    req.username@ == state.user_name@ && req.password@ == state.password@
}

/// The claims that a verifier whose clock reads `now` accepts from `token`:
/// those the token decodes to under the secret, while `now < exp`.
pub open spec fn accepted_claims(token: Seq<char>, secret: Seq<char>, now: u64) -> Option<
    (Seq<char>, u64),
> {
    match jwt_claims(token, secret) {
        Some((sub, exp)) => if now < exp {
            Some((sub, exp))
        } else {
            None
        },
        None => None,
    }
}

/// The token that a login at instant `now` is answered with: none unless
/// the credentials match, else the signed claims `{username, now + 24h}`.
pub open spec fn issued_token(req: &LoginRequest, state: &AppState, now: u64) -> Option<
    Seq<char>,
> {
    if credentials_match(req, state) {
        jwt_token(req.username@, (now + TOKEN_LIFETIME_SECS) as u64, state.secret_value@)
    } else {
        None
    }
}

/// The token of a login response as a plain value.
pub open spec fn response_token(resp: Option<LoginResponse>) -> Option<Seq<char>> {
    match resp {
        Some(r) => Some(r.token@),
        None => None,
    }
}

/// Expiry: a token whose expiry is not after `now` is rejected at `now`,
/// even though its signature verifies.
pub proof fn expired_token_is_rejected(token: Seq<char>, secret: Seq<char>, now: u64)
    requires
        jwt_claims(token, secret) matches Some(claims) && claims.1 <= now,
    ensures
        accepted_claims(token, secret, now) is None,
{
}

/// A token that is accepted at one instant is accepted, with the same
/// claims, at every earlier one; a token that is rejected at one instant is
/// rejected at every later one. There is no grace period and no revival.
pub proof fn acceptance_ends_at_expiry(
    token: Seq<char>,
    secret: Seq<char>,
    earlier: u64,
    later: u64,
)
    requires
        earlier <= later,
    ensures
        accepted_claims(token, secret, later) is Some ==> accepted_claims(token, secret, earlier)
            == accepted_claims(token, secret, later),
        accepted_claims(token, secret, earlier) is None ==> accepted_claims(token, secret, later)
            is None,
{
}

/// What is accepted is what was signed: the accepted claims are those that
/// the token decodes to, and their expiry lies after `now`.
pub proof fn accepted_claims_are_decoded(token: Seq<char>, secret: Seq<char>, now: u64)
    ensures
        accepted_claims(token, secret, now) matches Some(claims) ==> jwt_claims(token, secret)
            == Some(claims) && now < claims.1,
{
}

/// Keeps decoded claims only while they have not expired: `now < exp`, with
/// no grace period.
pub fn unexpired(decoded: Option<Claims>, now: u64) -> (claims: Option<Claims>)
    ensures
        claims == match decoded {
            Some(c) => if now < c.exp { Some(c) } else { None },
            None => None,
        },
{
    match decoded {
        Some(c) => if now < c.exp {
            Some(c)
        } else {
            None
        },
        None => None,
    }
}

/// What holds of the answer to a login at instant `now`: it carries the
/// issued token, if one is owed; and every verifier that holds the same
/// secret accepts that token, with the username as its subject, at each
/// instant before `now + 24h`, and at no instant from then on.
pub open spec fn answers_login_at(
    req: &LoginRequest,
    state: &AppState,
    resp: Option<LoginResponse>,
    now: u64,
) -> bool {
    &&& response_token(resp) == issued_token(req, state, now)
    &&& resp matches Some(r) ==> forall|t: u64| #[trigger]
        accepted_claims(r.token@, state.secret_value@, t) == if t < now + TOKEN_LIFETIME_SECS {
            Some((req.username@, (now + TOKEN_LIFETIME_SECS) as u64))
        } else {
            None
        }
}

/// Issues a session token at instant `now`.
///
/// Fails unless both the username and the password equal the configured
/// pair; both are always compared, and which of the two differed is not
/// reported. A match is always answered with a token; it carries the
/// username as subject and expires exactly 24 hours after `now`.
pub fn login_user_at(req: LoginRequest, app_state: &AppState, now: u64) -> (resp: Option<
    LoginResponse,
>)
    requires
        now + TOKEN_LIFETIME_SECS <= u64::MAX,
    ensures
        resp is Some <==> credentials_match(&req, app_state),
        answers_login_at(&req, app_state, resp, now),
{
    let name_ok = constant_time_eq(req.username.as_str(), app_state.user_name.as_str());
    let password_ok = constant_time_eq(req.password.as_str(), app_state.password.as_str());
    if name_ok && password_ok {
        let exp: u64 = now + TOKEN_LIFETIME_SECS;
        match sign_claims(req.username.as_str(), exp, app_state.secret_value.as_str()) {
            Some(token) => Some(LoginResponse { token }),
            None => None,
        }
    } else {
        None
    }
}

/// Verifies a token at instant `now`: the claims it was signed with, if its
/// signature verifies against the secret and `now` is before its expiry.
pub fn verify_token_at(token: &str, secret: &str, now: u64) -> (claims: Option<Claims>)
    ensures
        claims_view(claims) == accepted_claims(token@, secret@, now),
{
    unexpired(decode_claims(token, secret), now)
}

/// Issues a session token for the current instant.
///
/// Whatever the clock reads, the request is answered with a token if and
/// only if the credentials match. The clock decides the expiry: the answer
/// is that of a login at some instant that a clock reading can stand for.
pub fn login_user(req: LoginRequest, app_state: &AppState) -> (resp: Option<LoginResponse>)
    ensures
        resp is Some <==> credentials_match(&req, app_state),
        exists|now: u64|
            now <= LATEST_READING && #[trigger] answers_login_at(&req, app_state, resp, now),
{
    let now = seconds_since_epoch(unix_clock());
    login_user_at(req, app_state, now)
}

/// Verifies a token against the current instant.
///
/// The answer is that of a verification at some instant that a clock
/// reading can stand for. So, whatever the clock reads: a token that does
/// not decode under the secret is refused; claims that are returned are
/// those the token decodes to; and a token whose expiry lies after every
/// such instant is accepted.
pub fn verify_token(token: &str, app_state: &AppState) -> (claims: Option<Claims>)
    ensures
        exists|now: u64|
            now <= LATEST_READING && claims_view(claims) == #[trigger] accepted_claims(
                token@,
                app_state.secret_value@,
                now,
            ),
        jwt_claims(token@, app_state.secret_value@) is None ==> claims is None,
        claims is Some ==> claims_view(claims) == jwt_claims(token@, app_state.secret_value@),
        jwt_claims(token@, app_state.secret_value@) matches Some(c) ==> (c.1 > LATEST_READING
            ==> claims_view(claims) == Some(c)),
{
    let now = seconds_since_epoch(unix_clock());
    verify_token_at(token, app_state.secret_value.as_str(), now)
}

} // verus!
