use crate::auth::jwt::{verify_jwt_at, verification, ClaimFields, Claims, JwtError};
use crate::time::unix_seconds_now;
use crate::status::Status;
use crate::text::strip_prefix;
use vstd::prelude::*;

verus! {

/// The scheme that an `Authorization` header must start with.
pub open spec fn bearer_prefix() -> Seq<char> {
    seq!['B', 'e', 'a', 'r', 'e', 'r', ' ']
}

/// The token carried by an `Authorization` header, when it uses the bearer
/// scheme.
pub open spec fn bearer_of(header: Seq<char>) -> Option<Seq<char>> {
    if bearer_prefix().is_prefix_of(header) {
        Some(header.skip(7))
    } else {
        None
    }
}

/// Extracts the token from an `Authorization` header of the bearer scheme.
pub fn bearer_token(header: &str) -> (r: Option<&str>)
    ensures
        match r {
            Some(t) => bearer_of(header@) == Some(t@),
            None => bearer_of(header@) is None,
        },
{
    let prefix = "Bearer ";
    proof {
        reveal_strlit("Bearer ");
        assert(prefix@ =~= bearer_prefix());
    }
    strip_prefix(header, prefix)
}

/// How a request with the given `Authorization` header (if it has a
/// readable one) fares at `now`: the token's claims, or 401.
pub open spec fn admission(header: Option<Seq<char>>, now: u64) -> Result<ClaimFields, Status> {
    match header {
        None => Err(Status::Unauthorized),
        Some(h) => match bearer_of(h) {
            None => Err(Status::Unauthorized),
            Some(t) => match verification(t, now) {
                Ok(c) => Ok(c),
                Err(_) => Err(Status::Unauthorized),
            },
        },
    }
}

/// The plain content of an admission result.
pub open spec fn admitted(r: Result<Claims, Status>) -> Result<ClaimFields, Status> {
    match r {
        Ok(c) => Ok(c.fields()),
        Err(s) => Err(s),
    }
}

/// The view of an optional header text.
pub open spec fn header_view(header: Option<&str>) -> Option<Seq<char>> {
    match header {
        Some(h) => Some(h@),
        None => None,
    }
}

/// Decides at `now` whether a request with this `Authorization` header may
/// reach a protected route: a missing or unreadable header, another scheme
/// or a token that does not verify give 401; otherwise the token's claims,
/// which the route receives.
pub fn auth_middleware_at(header: Option<&str>, now: u64) -> (r: Result<Claims, Status>)
    ensures
        admitted(r) == admission(header_view(header), now),
{
    match header {
        None => Err(Status::Unauthorized),
        Some(h) => match bearer_token(h) {
            None => Err(Status::Unauthorized),
            Some(token) => match verify_jwt_at(token, now) {
                Ok(c) => Ok(c),
                Err(_) => Err(Status::Unauthorized),
            },
        },
    }
}

/// Decides now whether a request with this `Authorization` header may reach
/// a protected route; the instant comes from the clock, and whatever it was
/// the outcome is the admission at it.
pub fn auth_middleware(header: Option<&str>) -> (r: Result<Claims, Status>)
    ensures
        exists|now: u64| admitted(r) == #[trigger] admission(header_view(header), now),
{
    let now = unix_seconds_now();
    auth_middleware_at(header, now)
}

/// A request whose header does not use the bearer scheme is refused with
/// 401, whatever follows the scheme and whenever it comes.
pub proof fn lemma_other_scheme_refused(header: Seq<char>, now: u64)
    requires
        !bearer_prefix().is_prefix_of(header),
    ensures
        admission(Some(header), now) == Err::<ClaimFields, Status>(Status::Unauthorized),
{
}

/// A request that carries, under the bearer scheme, a token that verifies
/// at `now` is admitted with the token's claims.
pub proof fn lemma_verified_bearer_admitted(token: Seq<char>, fields: ClaimFields, now: u64)
    requires
        verification(token, now) == Ok::<ClaimFields, JwtError>(fields),
    ensures
        admission(Some(bearer_prefix() + token), now) == Ok::<ClaimFields, Status>(fields),
{
    assert(bearer_prefix().is_prefix_of(bearer_prefix() + token));
    assert((bearer_prefix() + token).skip(7) =~= token);
}

} // verus!
