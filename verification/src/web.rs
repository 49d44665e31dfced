//! Shared request/credential shapes of the web backends, and the pure parts
//! of their auth handling: bearer-token extraction and JWT claim
//! construction. Token signing and verification stay with the application.

use crate::text::{find_at, find_from, lemma_find_at_some};
use vstd::prelude::*;
use vstd::string::StrSliceExecFns;

verus! {

/// An authenticated caller's user id, extracted from a valid bearer token.
pub struct AuthUser(pub i32);

/// Like [`AuthUser`], but absent rather than rejected when the token is
/// missing or invalid.
pub struct OptionalAuthUser(pub Option<i32>);

/// Registration input.
#[derive(Clone, Debug)]
pub struct RegisterInput {
    pub email: String,
    pub password: String,
    pub name: String,
}

/// Login input.
#[derive(Clone, Debug)]
pub struct LoginInput {
    pub email: String,
    pub password: String,
}

/// The payload of an article-notification job.
#[derive(Clone, Debug)]
pub struct NotificationPayload {
    pub article_id: i32,
    pub title: String,
}

/// JWT claims: subject, expiry and issue time (unix seconds).
#[derive(Clone, Copy, Debug, PartialEq, Eq, Structural)]
pub struct Claims {
    pub sub: i32,
    pub exp: i64,
    pub iat: i64,
}

/// Claims for `user_id` issued at `now_ts`, expiring `expires_in_hours`
/// later.
pub fn claims_for(user_id: i32, now_ts: i64, expires_in_hours: i64) -> (r: Claims)
    requires
        i64::MIN <= expires_in_hours * 3600 <= i64::MAX,
        i64::MIN <= now_ts + expires_in_hours * 3600 <= i64::MAX,
    ensures
        r.sub == user_id,
        r.iat == now_ts,
        r.exp == now_ts + expires_in_hours * 3600,
{
    let offset = expires_in_hours * 3600;
    Claims { sub: user_id, exp: now_ts + offset, iat: now_ts }
}

/// The token carried by an Authorization header, which must use the
/// `Bearer ` scheme; anything else yields nothing.
pub fn bearer_token(auth_header: &str) -> (r: Option<String>)
    ensures
        r is Some <==> (auth_header@.len() >= 7 && auth_header@.subrange(0, 7) == "Bearer "@),
        r matches Some(t) ==> t@ == auth_header@.skip(7),
{
    proof {
        reveal_strlit("Bearer ");
    }
    let n = auth_header.unicode_len();
    if n < 7 {
        return None;
    }
    proof {
        if auth_header@.subrange(0, 7) == "Bearer "@ {
            assert(find_at(auth_header@, "Bearer "@, 0) == Some(0int));
        }
    }
    match find_from(auth_header, "Bearer ", 0) {
        Some(0) => {
            proof {
                lemma_find_at_some(auth_header@, "Bearer "@, 0, 0);
                assert(auth_header@.subrange(7, n as int) =~= auth_header@.skip(7));
            }
            Some(auth_header.substring_char(7, n).to_owned())
        },
        _ => None,
    }
}

} // verus!
