use vstd::prelude::*;
use vstd::string::StrSliceExecFns;
use crate::app_state::AppState;
use crate::auth::{
    accepted_claims, jwt_claims, seconds_since_epoch, unix_clock, verify_token_at, LATEST_READING,
};

verus! {

/// HTTP status of a rejected request.
pub const UNAUTHORIZED_STATUS: u16 = 401;

/// Body of a rejected request.
pub const UNAUTHORIZED_BODY: &'static str = "Unauthorized";

/// What is to be done with a request: the decision handed to the transport.
#[derive(Clone, Copy, Debug, PartialEq, Eq, Structural)]
pub enum GateDecision {
    /// Hand the request, unchanged, to the downstream handler.
    Forward,
    /// Answer with the given status and `UNAUTHORIZED_BODY`; the downstream
    /// handler is not invoked.
    Reject { status: u16 },
}

/// The scheme prefix that an `Authorization` header must start with:
/// `Bearer` followed by one space.
pub open spec fn bearer_prefix() -> Seq<char> {
    seq!['B', 'e', 'a', 'r', 'e', 'r', ' ']
}

/// Whether a header value starts with the scheme prefix, case-sensitively.
pub open spec fn has_bearer_prefix(header: Seq<char>) -> bool {
    header.len() >= 7 && header.subrange(0, 7) == bearer_prefix()
}

/// The token that a header value presents: what follows the scheme prefix.
pub open spec fn presented_token(header: Seq<char>) -> Option<Seq<char>> {
    if has_bearer_prefix(header) {
        Some(header.subrange(7, header.len() as int))
    } else {
        None
    }
}

/// Whether a request with this `Authorization` header (absent: `None`) is
/// let through by a gate whose clock reads `now`.
pub open spec fn gate_admits(header: Option<Seq<char>>, secret: Seq<char>, now: u64) -> bool {
    match header {
        Some(h) => match presented_token(h) {
            Some(token) => accepted_claims(token, secret, now) is Some,
            None => false,
        },
        None => false,
    }
}

/// The decision that stands for an admission.
pub open spec fn decision_for(admitted: bool) -> GateDecision {
    if admitted {
        GateDecision::Forward
    } else {
        GateDecision::Reject { status: UNAUTHORIZED_STATUS }
    }
}

/// A header as a plain value.
pub open spec fn header_view(header: Option<&str>) -> Option<Seq<char>> {
    match header {
        Some(h) => Some(h@),
        None => None,
    }
}

/// A token slice as a plain value.
pub open spec fn slice_view(token: Option<&str>) -> Option<Seq<char>> {
    match token {
        Some(t) => Some(t@),
        None => None,
    }
}

/// A request without an `Authorization` header is rejected.
pub proof fn missing_header_is_rejected(secret: Seq<char>, now: u64)
    ensures
        decision_for(gate_admits(None, secret, now)) == (GateDecision::Reject {
            status: UNAUTHORIZED_STATUS,
        }),
{
}

/// Gate short-circuit: a header of another scheme, or of a prefix that
/// differs from `Bearer ` in case or spacing, is rejected whatever follows
/// the prefix, whatever the secret and whatever the instant.
pub proof fn wrong_scheme_is_rejected(header: Seq<char>, secret: Seq<char>, now: u64)
    requires
        !has_bearer_prefix(header),
    ensures
        decision_for(gate_admits(Some(header), secret, now)) == (GateDecision::Reject {
            status: UNAUTHORIZED_STATUS,
        }),
{
}

/// A request is forwarded exactly when its header is `Bearer ` followed by
/// a token that the token authority accepts at that instant.
pub proof fn gate_follows_token_authority(token: Seq<char>, secret: Seq<char>, now: u64)
    ensures
        gate_admits(Some(bearer_prefix() + token), secret, now) <==> accepted_claims(
            token,
            secret,
            now,
        ) is Some,
{
    let header = bearer_prefix() + token;
    assert(header.subrange(0, 7) =~= bearer_prefix());
    assert(header.subrange(7, header.len() as int) =~= token);
}

/// Extracts the bearer token from an `Authorization` header value: the
/// remainder after the literal prefix `Bearer `, or nothing where the value
/// does not start with it.
pub fn bearer_token(header: &str) -> (token: Option<&str>)
    ensures
        slice_view(token) == presented_token(header@),
{
    let n: usize = header.unicode_len();
    if n < 7 {
        return None;
    }
    if header.get_char(0) == 'B' && header.get_char(1) == 'e' && header.get_char(2) == 'a'
        && header.get_char(3) == 'r' && header.get_char(4) == 'e' && header.get_char(5) == 'r'
        && header.get_char(6) == ' ' {
        assert(header@.subrange(0, 7) =~= bearer_prefix());
        Some(header.substring_char(7, n))
    } else {
        assert(header@.subrange(0, 7) != bearer_prefix()) by {
            let p = header@.subrange(0, 7);
            assert(p[0] == header@[0] && p[1] == header@[1] && p[2] == header@[2] && p[3]
                == header@[3] && p[4] == header@[4] && p[5] == header@[5] && p[6] == header@[6]);
        }
        None
    }
}

/// Decides on a request at instant `now`.
///
/// The request is forwarded if and only if it carries an `Authorization`
/// header that starts with `Bearer ` and whose remainder is a token that
/// verifies under the secret and has not expired; in every other case it is
/// rejected with status 401.
pub fn authorize_at(header: Option<&str>, secret: &str, now: u64) -> (decision: GateDecision)
    ensures
        decision == decision_for(gate_admits(header_view(header), secret@, now)),
{
    match header {
        Some(value) => match bearer_token(value) {
            Some(token) => match verify_token_at(token, secret, now) {
                Some(_) => GateDecision::Forward,
                None => GateDecision::Reject { status: UNAUTHORIZED_STATUS },
            },
            None => GateDecision::Reject { status: UNAUTHORIZED_STATUS },
        },
        None => GateDecision::Reject { status: UNAUTHORIZED_STATUS },
    }
}

/// Decides on a request against the current instant.
///
/// The decision is that of a gate at some instant that a clock reading can
/// stand for. So, whatever the clock reads: a request without a header, or
/// with a header of another scheme, is rejected with status 401; and a
/// request that presents a token whose expiry lies after every such instant
/// is forwarded.
pub fn authorize(header: Option<&str>, app_state: &AppState) -> (decision: GateDecision)
    ensures
        exists|now: u64|
            now <= LATEST_READING && decision == #[trigger] decision_for(
                gate_admits(header_view(header), app_state.secret_value@, now),
            ),
        (header_view(header) matches Some(h) ==> presented_token(h) is None) ==> decision
            == (GateDecision::Reject { status: UNAUTHORIZED_STATUS }),
        header_view(header) matches Some(h) ==> (presented_token(h) matches Some(t) ==> (
        jwt_claims(t, app_state.secret_value@) matches Some(c) ==> (c.1 > LATEST_READING
            ==> decision == GateDecision::Forward))),
{
    let now = seconds_since_epoch(unix_clock());
    authorize_at(header, app_state.secret_value.as_str(), now)
}

} // verus!
