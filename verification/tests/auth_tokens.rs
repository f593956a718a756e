use chatauth::auth::clock::{Delta, UtcInstant};
use chatauth::auth::config::{TimeSpan, TokenDuration};
use chatauth::auth::token::{
    access_claims_at, access_claims_now, access_cookie, access_delta, expiry, expiry_from_timestamp,
    refresh_claims_at,
    refresh_claims_now, refresh_cookie, token_deltas, SameSite, TokenError, ACCESS_TOKEN_COOKIE,
    REFRESH_TOKEN_COOKIE,
};

fn span(secs: u64) -> TimeSpan {
    TimeSpan { secs, nanos: 0 }
}

#[test]
fn durations_become_deltas() {
    let d = |secs: u64, nanos: u32| TokenDuration {
        access_token_duration: TimeSpan { secs, nanos },
        refresh_token_duration: span(1),
    };
    assert_eq!(access_delta(&d(900, 5)), Ok(Delta { secs: 900, nanos: 5 }));
    assert_eq!(
        access_delta(&d(9_223_372_036_854_775, 807_000_000)),
        Ok(Delta { secs: 9_223_372_036_854_775, nanos: 807_000_000 })
    );
    assert_eq!(
        access_delta(&d(9_223_372_036_854_775, 807_000_001)),
        Err(TokenError::AccessDurationOutOfRange)
    );
    assert_eq!(access_delta(&d(u64::MAX, 0)), Err(TokenError::AccessDurationOutOfRange));
}

#[test]
fn token_lifetimes_out_of_range_are_errors() {
    let ok = TokenDuration { access_token_duration: span(60), refresh_token_duration: span(3600) };
    assert_eq!(
        token_deltas(&ok),
        Ok((Delta { secs: 3600, nanos: 0 }, Delta { secs: 60, nanos: 0 }))
    );
    let bad_refresh = TokenDuration { access_token_duration: span(u64::MAX), refresh_token_duration: span(u64::MAX) };
    assert_eq!(token_deltas(&bad_refresh), Err(TokenError::RefreshDurationOutOfRange));
    let bad_access = TokenDuration { access_token_duration: span(u64::MAX), refresh_token_duration: span(1) };
    assert_eq!(token_deltas(&bad_access), Err(TokenError::AccessDurationOutOfRange));
    assert_eq!(access_delta(&bad_access), Err(TokenError::AccessDurationOutOfRange));
    assert_eq!(access_delta(&ok), Ok(Delta { secs: 60, nanos: 0 }));
}

#[test]
fn expiry_is_issue_time_plus_lifetime() {
    let now = UtcInstant { secs: 1_700_000_000, nanos: 600_000_000 };
    assert_eq!(expiry(now, Delta { secs: 60, nanos: 0 }), Ok(1_700_000_060));
    assert_eq!(expiry(now, Delta { secs: 60, nanos: 400_000_000 }), Ok(1_700_000_061));
    assert_eq!(expiry(now, Delta { secs: 60, nanos: 399_999_999 }), Ok(1_700_000_060));
    assert_eq!(expiry(now, Delta { secs: 1, nanos: 0 }), Ok(1_700_000_001));
    assert_eq!(
        expiry(now, Delta { secs: 9_223_372_036_854_775, nanos: 0 }),
        Err(TokenError::ExpiryOutOfRange)
    );
}

#[test]
fn claims_carry_user_and_expiry() {
    let now = UtcInstant { secs: 100, nanos: 0 };
    let d = Delta { secs: 30, nanos: 0 };
    let a = access_claims_at(7, now, d).unwrap();
    assert_eq!(a.access_token.user_id, 7);
    assert_eq!(a.exp, 130);
    let r = refresh_claims_at(8, now, d).unwrap();
    assert_eq!(r.refresh_token.user_id, 8);
    assert_eq!(r.exp, 130);
}

#[test]
fn claims_now_expire_after_the_current_time() {
    let before = std::time::SystemTime::now()
        .duration_since(std::time::UNIX_EPOCH)
        .unwrap()
        .as_secs();
    let d = Delta { secs: 600, nanos: 0 };
    let a = access_claims_now(5, d).unwrap();
    let after = std::time::SystemTime::now()
        .duration_since(std::time::UNIX_EPOCH)
        .unwrap()
        .as_secs();
    assert_eq!(a.access_token.user_id, 5);
    assert!(a.exp >= before + 600 && a.exp <= after + 601);
    let r = refresh_claims_now(6, d).unwrap();
    assert_eq!(r.refresh_token.user_id, 6);
    assert!(r.exp >= before + 600);
}

#[test]
fn cookies_hold_the_token_for_its_lifetime() {
    let c = access_cookie("jwt-a".to_string(), Delta { secs: 900, nanos: 500 });
    assert_eq!(c.name, ACCESS_TOKEN_COOKIE);
    assert_eq!(c.name, "access_token");
    assert_eq!(c.value, "jwt-a");
    assert!(c.http_only);
    assert_eq!(c.same_site, SameSite::Strict);
    assert_eq!(c.max_age_seconds, 900);
    let c = refresh_cookie("jwt-r".to_string(), Delta { secs: 86_400, nanos: 0 });
    assert_eq!(c.name, REFRESH_TOKEN_COOKIE);
    assert_eq!(c.name, "refresh_token");
    assert_eq!(c.max_age_seconds, 86_400);
}

#[test]
fn negative_deltas_round_toward_zero() {
    assert_eq!(Delta { secs: -3, nanos: 500 }.num_seconds(), -2);
    assert_eq!(Delta { secs: -3, nanos: 0 }.num_seconds(), -3);
    assert_eq!(Delta { secs: 3, nanos: 999 }.num_seconds(), 3);
}

#[test]
fn chrono_timestamps_become_expiries() {
    assert_eq!(expiry_from_timestamp(Some(1_700_000_000)), Ok(1_700_000_000));
    assert_eq!(expiry_from_timestamp(Some(-1)), Ok(u64::MAX));
    assert_eq!(expiry_from_timestamp(None), Err(TokenError::ExpiryOutOfRange));
}

#[test]
fn expiries_up_to_the_last_representable_second_are_issued() {
    let last: i64 = 8_210_266_876_799;
    let hour = Delta { secs: 3600, nanos: 0 };
    let now = UtcInstant { secs: last - 3600, nanos: 0 };
    assert_eq!(expiry(now, hour), Ok(last as u64));
    let now = UtcInstant { secs: last - 3599, nanos: 0 };
    assert_eq!(expiry(now, hour), Err(TokenError::ExpiryOutOfRange));
    let now = UtcInstant { secs: last - 3600, nanos: 600_000_000 };
    let carry = Delta { secs: 3599, nanos: 500_000_000 };
    assert_eq!(expiry(now, carry), Ok(last as u64));
    let first: i64 = -8_334_601_228_800;
    assert_eq!(expiry(UtcInstant { secs: first, nanos: 0 }, hour), Ok((first + 3600) as u64));
    assert_eq!(
        expiry(UtcInstant { secs: first - 1, nanos: 0 }, hour),
        Err(TokenError::ExpiryOutOfRange)
    );
}

#[test]
fn a_one_hour_token_issued_today_is_valid_for_an_hour() {
    let now = UtcInstant { secs: 1_700_000_000, nanos: 0 };
    let claims = access_claims_at(3, now, Delta { secs: 3600, nanos: 0 }).unwrap();
    assert_eq!(claims.exp, 1_700_003_600);
    assert_eq!(claims.access_token.user_id, 3);
}
