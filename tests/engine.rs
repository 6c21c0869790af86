use daily_bonus::calendar::{yesterday_of, CivilDate};
use daily_bonus::engine::{
    check_bonus, check_bonus_availability, check_bonus_streak, set_bonus_claimed, RedisFailure,
    RECORD_TTL_SECONDS,
};
use daily_bonus::key::{date_text, derive_key, PlayerId};
use daily_bonus::store::{CacheStore, MemoryCache};

fn day(y: i32, m: u32, d: u32) -> CivilDate {
    CivilDate::new(y, m, d).unwrap()
}

const P1: PlayerId = PlayerId { id: 0xa1a2a3a4b1b2c1c2d1d2d3d4d5d6d7d8 };
const P2: PlayerId = PlayerId { id: 7 };

#[test]
fn key_has_player_and_date() {
    let k = derive_key(&P1, &day(2024, 3, 17));
    assert_eq!(k, "daily_bonus_claimed:a1a2a3a4-b1b2-c1c2-d1d2-d3d4d5d6d7d8:2024-03-17");
    let k2 = derive_key(&P2, &day(5, 1, 9));
    assert_eq!(k2, "daily_bonus_claimed:00000000-0000-0000-0000-000000000007:0005-01-09");
}

#[test]
fn keys_differ_by_day_and_player() {
    let a = derive_key(&P1, &day(2024, 3, 17));
    let b = derive_key(&P1, &day(2024, 3, 16));
    let c = derive_key(&P2, &day(2024, 3, 17));
    assert_ne!(a, b);
    assert_ne!(a, c);
}

#[test]
fn date_text_is_zero_padded() {
    assert_eq!(date_text(&day(2024, 1, 2)), "2024-01-02");
    assert_eq!(date_text(&day(999, 12, 31)), "0999-12-31");
}

#[test]
fn civil_date_rejects_out_of_range_parts() {
    assert!(CivilDate::new(2024, 0, 1).is_none());
    assert!(CivilDate::new(2024, 13, 1).is_none());
    assert!(CivilDate::new(2024, 1, 32).is_none());
    assert!(CivilDate::new(10000, 1, 1).is_none());
    assert!(CivilDate::new(-1, 1, 1).is_none());
}

#[test]
fn yesterday_crosses_month_and_year() {
    assert_eq!(yesterday_of(&day(2024, 3, 1)), Some(day(2024, 2, 29)));
    assert_eq!(yesterday_of(&day(2023, 3, 1)), Some(day(2023, 2, 28)));
    assert_eq!(yesterday_of(&day(2024, 1, 1)), Some(day(2023, 12, 31)));
    assert_eq!(yesterday_of(&day(2024, 3, 17)), Some(day(2024, 3, 16)));
    assert_eq!(yesterday_of(&day(0, 1, 1)), None);
    assert_eq!(yesterday_of(&day(2023, 2, 30)), None);
}

#[test]
fn fresh_player_scenario() {
    let mut cache = MemoryCache::new();
    let d1 = day(2024, 3, 17);
    let d2 = day(2024, 3, 18);
    assert_eq!(check_bonus_availability(&mut cache, &P1, &d1).unwrap(), true);
    assert_eq!(set_bonus_claimed(&mut cache, &P1, &d1).unwrap(), 1);
    assert_eq!(check_bonus_availability(&mut cache, &P1, &d1).unwrap(), false);
    assert_eq!(check_bonus_streak(&mut cache, &P1, &d1).unwrap(), 1);
    assert_eq!(check_bonus_streak(&mut cache, &P1, &d2).unwrap(), 1);
    assert_eq!(set_bonus_claimed(&mut cache, &P1, &d2).unwrap(), 2);
}

#[test]
fn claim_makes_day_unavailable() {
    let mut cache = MemoryCache::new();
    let d = day(2025, 12, 31);
    set_bonus_claimed(&mut cache, &P2, &d).unwrap();
    assert_eq!(check_bonus_availability(&mut cache, &P2, &d).unwrap(), false);
}

#[test]
fn consecutive_claims_extend_streak() {
    let mut cache = MemoryCache::new();
    assert_eq!(set_bonus_claimed(&mut cache, &P1, &day(2023, 12, 30)).unwrap(), 1);
    assert_eq!(set_bonus_claimed(&mut cache, &P1, &day(2023, 12, 31)).unwrap(), 2);
    assert_eq!(set_bonus_claimed(&mut cache, &P1, &day(2024, 1, 1)).unwrap(), 3);
}

#[test]
fn skipped_day_resets_streak() {
    let mut cache = MemoryCache::new();
    assert_eq!(set_bonus_claimed(&mut cache, &P1, &day(2024, 2, 27)).unwrap(), 1);
    assert_eq!(set_bonus_claimed(&mut cache, &P1, &day(2024, 2, 28)).unwrap(), 2);
    assert_eq!(set_bonus_claimed(&mut cache, &P1, &day(2024, 3, 1)).unwrap(), 1);
}

#[test]
fn second_claim_same_day_conflicts() {
    let mut cache = MemoryCache::new();
    let d = day(2024, 6, 1);
    assert_eq!(set_bonus_claimed(&mut cache, &P1, &d).unwrap(), 1);
    let second = set_bonus_claimed(&mut cache, &P1, &d);
    assert!(matches!(second, Err(RedisFailure::Conflict)));
    assert_eq!(cache.len(), 1);
}

#[test]
fn streak_is_zero_before_any_claim() {
    let mut cache = MemoryCache::new();
    assert_eq!(check_bonus_streak(&mut cache, &P1, &day(2024, 6, 1)).unwrap(), 0);
    set_bonus_claimed(&mut cache, &P2, &day(2024, 6, 1)).unwrap();
    assert_eq!(check_bonus_streak(&mut cache, &P1, &day(2024, 6, 1)).unwrap(), 0);
}

#[test]
fn claimed_streak_reads_back() {
    let mut cache = MemoryCache::new();
    let key = derive_key(&P1, &day(2024, 6, 1));
    cache.set_with_ttl(&key, 41, RECORD_TTL_SECONDS).unwrap();
    let today = day(2024, 6, 2);
    let s = set_bonus_claimed(&mut cache, &P1, &today).unwrap();
    assert_eq!(s, 42);
    assert_eq!(check_bonus_streak(&mut cache, &P1, &today).unwrap(), 42);
}

#[test]
fn claim_writes_record_with_two_day_expiry() {
    let mut cache = MemoryCache::new();
    let d = day(2024, 6, 1);
    set_bonus_claimed(&mut cache, &P1, &d).unwrap();
    let key = derive_key(&P1, &d);
    assert_eq!(RECORD_TTL_SECONDS, 172800);
    assert_eq!(cache.ttl_seconds_of(&key), Some(172800));
    assert_eq!(cache.get(&key).unwrap(), Some(1));
}

#[test]
fn record_of_two_days_ago_is_not_carried() {
    let mut cache = MemoryCache::new();
    let key = derive_key(&P1, &day(2024, 6, 1));
    cache.set_with_ttl(&key, 9, RECORD_TTL_SECONDS).unwrap();
    assert_eq!(check_bonus_streak(&mut cache, &P1, &day(2024, 6, 3)).unwrap(), 0);
    assert_eq!(check_bonus_streak(&mut cache, &P1, &day(2024, 6, 2)).unwrap(), 9);
}

#[test]
fn expired_record_no_longer_counts() {
    let mut cache = MemoryCache::new();
    let d = day(2024, 6, 1);
    set_bonus_claimed(&mut cache, &P1, &d).unwrap();
    cache.remove(&derive_key(&P1, &d));
    assert_eq!(check_bonus_availability(&mut cache, &P1, &d).unwrap(), true);
    assert_eq!(cache.len(), 0);
}

#[test]
fn largest_streak_cannot_be_extended() {
    let mut cache = MemoryCache::new();
    let key = derive_key(&P1, &day(2024, 6, 1));
    cache.set_with_ttl(&key, u32::MAX, RECORD_TTL_SECONDS).unwrap();
    let r = set_bonus_claimed(&mut cache, &P1, &day(2024, 6, 2));
    assert!(matches!(r, Err(RedisFailure::StreakLimit)));
    assert_eq!(check_bonus_availability(&mut cache, &P1, &day(2024, 6, 2)).unwrap(), true);
}

#[test]
fn check_bonus_reports_both() {
    let mut cache = MemoryCache::new();
    let d = day(2024, 6, 1);
    assert_eq!(check_bonus(&mut cache, &P1, &d).unwrap(), (true, 0));
    set_bonus_claimed(&mut cache, &P1, &d).unwrap();
    assert_eq!(check_bonus(&mut cache, &P1, &d).unwrap(), (false, 1));
    assert_eq!(check_bonus(&mut cache, &P1, &day(2024, 6, 2)).unwrap(), (true, 1));
}

#[test]
fn redis_failure_messages() {
    assert_eq!(
        RedisFailure::Conflict.message(),
        "You cannot claim the daily bonus twice in a single UTC day."
    );
    assert_eq!(RedisFailure::Query(String::from("connection refused")).message(), "connection refused");
    assert_eq!(RedisFailure::StreakLimit.message(), "The streak cannot grow any further.");
}
