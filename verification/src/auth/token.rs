use vstd::prelude::*;

use crate::auth::clock::{
    chrono_timestamp_after, delta_from_span, delta_from_std, delta_num_seconds, max_utc_timestamp,
    min_utc_timestamp, timestamp_after, timestamp_sum, utc_now, Delta, UtcInstant,
};
use crate::auth::config::TokenDuration;

verus! {

/// Name of the cookie that carries the refresh token.
pub const REFRESH_TOKEN_COOKIE: &'static str = "refresh_token";

/// Name of the cookie that carries the access token.
pub const ACCESS_TOKEN_COOKIE: &'static str = "access_token";

/// The user a refresh token was issued to.
#[derive(Debug, Clone, Copy, PartialEq, Eq, Structural)]
pub struct RefreshTokenInternals {
    pub user_id: u128,
}

/// Claims of a refresh token: its user and its expiry (a Unix timestamp).
#[derive(Debug, Clone, Copy, PartialEq, Eq, Structural)]
pub struct RefreshToken {
    pub refresh_token: RefreshTokenInternals,
    pub exp: u64,
}

/// The user an access token was issued to.
#[derive(Debug, Clone, Copy, PartialEq, Eq, Structural)]
pub struct AccessTokenInternals {
    pub user_id: u128,
}

/// Claims of an access token: its user and its expiry (a Unix timestamp).
#[derive(Debug, Clone, Copy, PartialEq, Eq, Structural)]
pub struct AccessToken {
    pub access_token: AccessTokenInternals,
    pub exp: u64,
}

/// Why tokens could not be issued.
#[derive(Debug, Clone, Copy, PartialEq, Eq, Structural)]
pub enum TokenError {
    /// The refresh token lifetime is longer than chrono represents.
    RefreshDurationOutOfRange,
    /// The access token lifetime is longer than chrono represents.
    AccessDurationOutOfRange,
    /// The expiry date lies outside the dates chrono represents.
    ExpiryOutOfRange,
}

/// The `SameSite` attribute of a cookie.
#[derive(Debug, Clone, Copy, PartialEq, Eq, Structural)]
pub enum SameSite {
    Strict,
    Lax,
    NoRestriction,
}

/// A cookie that carries a token.
#[derive(Debug)]
pub struct TokenCookie {
    pub name: String,
    pub value: String,
    pub http_only: bool,
    pub same_site: SameSite,
    pub max_age_seconds: i64,
}

/// The expiry written into a token issued at `now` and valid for `delta`: the
/// timestamp chrono computes, cast to `u64`.
pub open spec fn expiry_at(now: UtcInstant, delta: Delta) -> Option<u64> {
    match chrono_timestamp_after(now.secs, now.nanos, delta.secs, delta.nanos) {
        Some(t) => Some(t as u64),
        None => None,
    }
}

/// The expiry for the timestamp chrono computed: that timestamp cast to `u64`,
/// or an error when chrono refused the date.
pub fn expiry_from_timestamp(t: Option<i64>) -> (r: Result<u64, TokenError>)
    ensures
        match t {
            Some(t) => r == Ok::<u64, TokenError>(t as u64),
            None => r == Err::<u64, TokenError>(TokenError::ExpiryOutOfRange),
        },
{
    match t {
        Some(t) => Ok(t as u64),
        None => Err(TokenError::ExpiryOutOfRange),
    }
}

/// Whether the expiry of a token issued at `now` and valid for `delta` is a date
/// chrono represents: the start is in chrono's range, the lifetime is not
/// negative, and the end is not past chrono's last second.
pub open spec fn expiry_representable(now: UtcInstant, delta: Delta) -> bool {
    &&& min_utc_timestamp() <= now.secs
    &&& 0 <= delta.secs
    &&& timestamp_sum(now, delta) <= max_utc_timestamp()
}

/// The expiry of a token issued at `now` and valid for `delta`, or an error when
/// that date is beyond what chrono represents.
pub fn expiry(now: UtcInstant, delta: Delta) -> (r: Result<u64, TokenError>)
    requires
        now.nanos < 1_000_000_000,
        0 <= delta.nanos < 1_000_000_000,
    ensures
        match expiry_at(now, delta) {
            Some(e) => r == Ok::<u64, TokenError>(e),
            None => r == Err::<u64, TokenError>(TokenError::ExpiryOutOfRange),
        },
        r matches Ok(e) ==> e == timestamp_sum(now, delta) as u64,
        min_utc_timestamp() <= now.secs && 0 <= delta.secs
            ==> (r is Ok <==> expiry_representable(now, delta)),
{
    expiry_from_timestamp(timestamp_after(now, delta))
}

/// The lifetimes of both tokens as chrono deltas, refresh first. A lifetime
/// beyond what chrono represents is an error, the refresh one checked first.
pub fn token_deltas(durations: &TokenDuration) -> (r: Result<(Delta, Delta), TokenError>)
    requires
        durations.wf(),
    ensures
        match (delta_from_span(durations.refresh_token_duration), delta_from_span(durations.access_token_duration)) {
            (Some(refresh), Some(access)) => r == Ok::<(Delta, Delta), TokenError>((refresh, access)),
            (None, _) => r == Err::<(Delta, Delta), TokenError>(TokenError::RefreshDurationOutOfRange),
            (Some(_), None) => r == Err::<(Delta, Delta), TokenError>(TokenError::AccessDurationOutOfRange),
        },
{
    let refresh = match delta_from_std(durations.refresh_token_duration) {
        Some(d) => d,
        None => return Err(TokenError::RefreshDurationOutOfRange),
    };
    let access = match delta_from_std(durations.access_token_duration) {
        Some(d) => d,
        None => return Err(TokenError::AccessDurationOutOfRange),
    };
    Ok((refresh, access))
}

/// The access token lifetime as a chrono delta.
pub fn access_delta(durations: &TokenDuration) -> (r: Result<Delta, TokenError>)
    requires
        durations.wf(),
    ensures
        match delta_from_span(durations.access_token_duration) {
            Some(d) => r == Ok::<Delta, TokenError>(d),
            None => r == Err::<Delta, TokenError>(TokenError::AccessDurationOutOfRange),
        },
{
    match delta_from_std(durations.access_token_duration) {
        Some(d) => Ok(d),
        None => Err(TokenError::AccessDurationOutOfRange),
    }
}

/// The claims of an access token for `user_id` issued at `now`, valid for `delta`.
pub open spec fn access_claims_spec(user_id: u128, now: UtcInstant, delta: Delta) -> Result<AccessToken, TokenError> {
    match expiry_at(now, delta) {
        Some(e) => Ok(AccessToken { access_token: AccessTokenInternals { user_id }, exp: e }),
        None => Err(TokenError::ExpiryOutOfRange),
    }
}

/// The claims of a refresh token for `user_id` issued at `now`, valid for `delta`.
pub open spec fn refresh_claims_spec(user_id: u128, now: UtcInstant, delta: Delta) -> Result<RefreshToken, TokenError> {
    match expiry_at(now, delta) {
        Some(e) => Ok(RefreshToken { refresh_token: RefreshTokenInternals { user_id }, exp: e }),
        None => Err(TokenError::ExpiryOutOfRange),
    }
}

/// An instant the clock can give: after the Unix epoch, with the nanoseconds
/// below one second.
pub open spec fn clock_instant(now: UtcInstant) -> bool {
    now.secs >= 0 && now.nanos < 1_000_000_000
}

/// Claims of an access token for `user_id`, issued at `now`, valid for `delta`.
pub fn access_claims_at(user_id: u128, now: UtcInstant, delta: Delta) -> (r: Result<AccessToken, TokenError>)
    requires
        now.nanos < 1_000_000_000,
        0 <= delta.nanos < 1_000_000_000,
    ensures
        r == access_claims_spec(user_id, now, delta),
        r matches Ok(c) ==> c.access_token.user_id == user_id,
        r matches Ok(c) ==> c.exp == timestamp_sum(now, delta) as u64,
        min_utc_timestamp() <= now.secs && 0 <= delta.secs
            ==> (r is Ok <==> expiry_representable(now, delta)),
{
    let exp = expiry(now, delta)?;
    Ok(AccessToken { access_token: AccessTokenInternals { user_id }, exp })
}

/// Claims of a refresh token for `user_id`, issued at `now`, valid for `delta`.
pub fn refresh_claims_at(user_id: u128, now: UtcInstant, delta: Delta) -> (r: Result<RefreshToken, TokenError>)
    requires
        now.nanos < 1_000_000_000,
        0 <= delta.nanos < 1_000_000_000,
    ensures
        r == refresh_claims_spec(user_id, now, delta),
        r matches Ok(c) ==> c.refresh_token.user_id == user_id,
        r matches Ok(c) ==> c.exp == timestamp_sum(now, delta) as u64,
        min_utc_timestamp() <= now.secs && 0 <= delta.secs
            ==> (r is Ok <==> expiry_representable(now, delta)),
{
    let exp = expiry(now, delta)?;
    Ok(RefreshToken { refresh_token: RefreshTokenInternals { user_id }, exp })
}

/// Claims of an access token for `user_id`, issued now, valid for `delta`: the
/// claims for whatever instant the clock gave.
pub fn access_claims_now(user_id: u128, delta: Delta) -> (r: Result<AccessToken, TokenError>)
    requires
        0 <= delta.nanos < 1_000_000_000,
    ensures
        exists|now: UtcInstant| {
            &&& clock_instant(now)
            &&& r == #[trigger] access_claims_spec(user_id, now, delta)
            &&& r matches Ok(c) ==> c.access_token.user_id == user_id
            &&& r matches Ok(c) ==> c.exp == timestamp_sum(now, delta) as u64
            &&& 0 <= delta.secs ==> (r is Ok <==> expiry_representable(now, delta))
        },
{
    let now = utc_now();
    access_claims_at(user_id, now, delta)
}

/// Claims of a refresh token for `user_id`, issued now, valid for `delta`: the
/// claims for whatever instant the clock gave.
pub fn refresh_claims_now(user_id: u128, delta: Delta) -> (r: Result<RefreshToken, TokenError>)
    requires
        0 <= delta.nanos < 1_000_000_000,
    ensures
        exists|now: UtcInstant| {
            &&& clock_instant(now)
            &&& r == #[trigger] refresh_claims_spec(user_id, now, delta)
            &&& r matches Ok(c) ==> c.refresh_token.user_id == user_id
            &&& r matches Ok(c) ==> c.exp == timestamp_sum(now, delta) as u64
            &&& 0 <= delta.secs ==> (r is Ok <==> expiry_representable(now, delta))
        },
{
    let now = utc_now();
    refresh_claims_at(user_id, now, delta)
}

/// The cookie that carries a token: HTTP only, same-site strict, kept by the
/// browser for the token's lifetime in whole seconds.
pub fn token_cookie(name: &str, jwt: String, delta: Delta) -> (r: TokenCookie)
    ensures
        r.name@ == name@,
        r.value@ == jwt@,
        r.http_only,
        r.same_site == SameSite::Strict,
        r.max_age_seconds == delta_num_seconds(delta),
        0 <= delta.secs && 0 <= delta.nanos < 1_000_000_000 ==> r.max_age_seconds == delta.secs,
{
    TokenCookie {
        name: name.to_string(),
        value: jwt,
        http_only: true,
        same_site: SameSite::Strict,
        max_age_seconds: delta.num_seconds(),
    }
}

/// The cookie for an access token.
pub fn access_cookie(jwt: String, delta: Delta) -> (r: TokenCookie)
    ensures
        r.name@ == ACCESS_TOKEN_COOKIE@,
        r.value@ == jwt@,
        r.http_only,
        r.same_site == SameSite::Strict,
        r.max_age_seconds == delta_num_seconds(delta),
        0 <= delta.secs && 0 <= delta.nanos < 1_000_000_000 ==> r.max_age_seconds == delta.secs,
{
    token_cookie(ACCESS_TOKEN_COOKIE, jwt, delta)
}

/// The cookie for a refresh token.
pub fn refresh_cookie(jwt: String, delta: Delta) -> (r: TokenCookie)
    ensures
        r.name@ == REFRESH_TOKEN_COOKIE@,
        r.value@ == jwt@,
        r.http_only,
        r.same_site == SameSite::Strict,
        r.max_age_seconds == delta_num_seconds(delta),
        0 <= delta.secs && 0 <= delta.nanos < 1_000_000_000 ==> r.max_age_seconds == delta.secs,
{
    token_cookie(REFRESH_TOKEN_COOKIE, jwt, delta)
}

/// A token names the user it was issued to and expires at the issue time plus
/// its lifetime: whenever claims are issued for `user_id` at `now` for `delta`,
/// they carry exactly `user_id`, and their expiry is the start's seconds plus
/// the lifetime's seconds, plus one when the nanoseconds carry over.
pub proof fn lemma_claims_name_their_user(user_id: u128, now: UtcInstant, delta: Delta)
    ensures
        access_claims_spec(user_id, now, delta) matches Ok(c) ==> {
            &&& c.access_token.user_id == user_id
            &&& c.exp == expiry_at(now, delta)->0
        },
        refresh_claims_spec(user_id, now, delta) matches Ok(c) ==> {
            &&& c.refresh_token.user_id == user_id
            &&& c.exp == expiry_at(now, delta)->0
        },
        access_claims_spec(user_id, now, delta) is Ok <==> expiry_at(now, delta) is Some,
        refresh_claims_spec(user_id, now, delta) is Ok <==> expiry_at(now, delta) is Some,
{
}

} // verus!
