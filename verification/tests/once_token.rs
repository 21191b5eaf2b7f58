use caco3::token::once_token::{settle, OnceToken, Verdict};
use std::ops::Add;
use std::time::{Duration, Instant};
use uuid::Uuid;

const TTL: Duration = Duration::from_secs(10);

#[test]
fn test_once_token() {
    let ot: OnceToken<Uuid> = OnceToken::new(TTL, Uuid::new_v4);

    // No token
    assert!(!ot.eq_once(&Uuid::new_v4()));

    let token = ot.generate();
    // first call should return true
    assert!(ot.is_set());
    assert!(ot.eq_once(&token), "unexpired and authorized token");
    assert!(!ot.is_set(), "token is removed after used");
    // second call of unexpired token should fail
    assert!(!ot.eq_once(&token), "used token is unauthorized");
}

#[test]
fn test_once_token_of_string() {
    let ot: OnceToken<String> = OnceToken::new(TTL, String::new);

    // No token
    assert!(!ot.eq_once(&String::new()));

    let token = Uuid::new_v4().to_string();
    ot.set(token.clone());
    assert!(ot.eq_once(&token));
}

#[test]
fn test_expired_once_token() {
    let ot: OnceToken<Uuid> = OnceToken::new(TTL, Uuid::new_v4);

    let token = create_expired_token(&ot);
    assert!(ot.is_set());
    assert!(!ot.eq_once(&token), "expired token");
    assert!(!ot.is_set());

    let _token = create_expired_token(&ot);
    assert!(!ot.eq_once(&Uuid::new_v4()), "unmatched and expired token");
    assert!(!ot.is_set());
}

fn create_expired_token(ot: &OnceToken<Uuid>) -> Uuid {
    let token = ot.generate();
    // change created instant to some moment before random was called.
    let long_before_created = Instant::now().checked_sub(TTL.add(TTL)).unwrap();
    ot.set_at(token, long_before_created);
    token
}

#[test]
fn another_token_leaves_the_held_one() {
    let ot: OnceToken<u32> = OnceToken::new(TTL, || 7);
    assert_eq!(ot.ttl(), TTL);
    assert_eq!(ot.present(&1), Verdict::Missing);
    assert_eq!(ot.generate(), 7);
    assert_eq!(ot.present(&8), Verdict::Mismatched);
    assert!(ot.is_set());
    assert_eq!(ot.present(&7), Verdict::Matched);
    assert_eq!(ot.present(&7), Verdict::Missing);
    ot.set_at(9, Instant::now().checked_sub(TTL.add(TTL)).unwrap());
    assert_eq!(ot.present(&9), Verdict::Expired);
    assert!(!ot.is_set());
    ot.set(1);
    ot.set(2);
    assert!(!ot.eq_once(&1));
    assert!(ot.eq_once(&2));
}

#[test]
fn the_verdict_on_a_token() {
    assert_eq!(settle(None, false, &1), (Verdict::Missing, None));
    assert_eq!(settle(None, true, &1), (Verdict::Missing, None));
    assert_eq!(settle(Some(1), true, &1), (Verdict::Expired, None));
    assert_eq!(settle(Some(2), true, &1), (Verdict::Expired, None));
    assert_eq!(settle(Some(1), false, &1), (Verdict::Matched, None));
    assert_eq!(settle(Some(2), false, &1), (Verdict::Mismatched, Some(2)));
    assert!(Verdict::Matched.is_authorized());
    assert!(!Verdict::Missing.is_authorized());
    assert!(!Verdict::Expired.is_authorized());
    assert!(!Verdict::Mismatched.is_authorized());
}
