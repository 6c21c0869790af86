//! The daily-bonus engine: availability, streak and claim, over a cache of claim records.
//!
//! The claim reads and then writes in two round trips; two claims that race on one day may
//! both succeed and write the same streak.

use crate::calendar::{previous_date, yesterday_of, CivilDate};
use crate::key::{derive_key, key_chars, PlayerId};
use crate::store::{lookup, CacheStore};
use vstd::prelude::*;
use vstd::string::StringExecFns;

verus! {

/// How long a claim record lives: 48 hours, so that it can be read as yesterday's all through
/// today, and never as the record of two days ago.
pub const RECORD_TTL_SECONDS: u64 = 48 * 3600;

/// Why an engine operation did not complete.
#[derive(Debug)]
pub enum RedisFailure {
    /// The cache could not be reached or answered with an error; holds its message.
    Query(String),
    /// Today's bonus was already claimed.
    Conflict,
    /// Yesterday's streak is the largest one a record can hold, so it cannot be extended.
    StreakLimit,
}

pub open spec fn conflict_text() -> Seq<char> {
    "You cannot claim the daily bonus twice in a single UTC day."@
}

pub open spec fn streak_limit_text() -> Seq<char> {
    "The streak cannot grow any further."@
}

impl RedisFailure {
    pub open spec fn message_chars(&self) -> Seq<char> {
        match self {
            RedisFailure::Query(e) => e@,
            RedisFailure::Conflict => conflict_text(),
            RedisFailure::StreakLimit => streak_limit_text(),
        }
    }

    /// A message that says what went wrong.
    pub fn message(&self) -> (r: String)
        ensures
            r@ == self.message_chars(),
    {
        match self {
            RedisFailure::Query(e) => e.clone(),
            RedisFailure::Conflict => String::from_str(
                "You cannot claim the daily bonus twice in a single UTC day.",
            ),
            RedisFailure::StreakLimit => String::from_str("The streak cannot grow any further."),
        }
    }
}

/// The record that `player` holds for `day` in the cache `m`.
pub open spec fn record_of(m: Map<Seq<char>, u32>, player: PlayerId, day: CivilDate) -> Option<
    u32,
> {
    lookup(m, key_chars(player, day))
}

/// The record of the day before `today`, if that day and its record exist.
pub open spec fn yesterday_record_in(m: Map<Seq<char>, u32>, player: PlayerId, today: CivilDate) -> Option<u32> {
    match previous_date(today) {
        Some(y) => record_of(m, player, y),
        None => None,
    }
}

/// The current streak from today's and yesterday's records: today's, else yesterday's, else 0.
pub open spec fn streak_step(today_record: Option<u32>, yesterday_record: Option<u32>) -> u32 {
    match today_record {
        Some(s) => s,
        None => match yesterday_record {
            Some(s) => s,
            None => 0,
        },
    }
}

/// A claim from today's and yesterday's records: `Conflict` when today has one, else
/// yesterday's streak plus one (1 without one).
pub open spec fn claim_step(today_record: Option<u32>, yesterday_record: Option<u32>) -> Result<
    u32,
    RedisFailure,
> {
    let carried: u32 = match yesterday_record {
        Some(s) => s,
        None => 0,
    };
    if today_record is Some {
        Err(RedisFailure::Conflict)
    } else if carried == u32::MAX {
        Err(RedisFailure::StreakLimit)
    } else {
        Ok((carried + 1) as u32)
    }
}

/// The bonus of `today` is available: no record for it.
pub open spec fn available_in(m: Map<Seq<char>, u32>, player: PlayerId, today: CivilDate) -> bool {
    record_of(m, player, today) is None
}

/// The current streak in the cache `m`.
pub open spec fn streak_in(m: Map<Seq<char>, u32>, player: PlayerId, today: CivilDate) -> u32 {
    streak_step(record_of(m, player, today), yesterday_record_in(m, player, today))
}

/// What a claim on `today` answers when the cache does not fail.
pub open spec fn claim_result(m: Map<Seq<char>, u32>, player: PlayerId, today: CivilDate) -> Result<
    u32,
    RedisFailure,
> {
    claim_step(record_of(m, player, today), yesterday_record_in(m, player, today))
}

/// The cache after a claim on `today` when the cache does not fail.
pub open spec fn after_claim(m: Map<Seq<char>, u32>, player: PlayerId, today: CivilDate) -> Map<
    Seq<char>,
    u32,
> {
    match claim_result(m, player, today) {
        Ok(s) => m.insert(key_chars(player, today), s),
        Err(_) => m,
    }
}

/// Today's availability, from today's record.
pub fn availability_from(today_record: Option<u32>) -> (r: bool)
    ensures
        r == today_record is None,
{
    today_record.is_none()
}

/// The current streak, from today's and yesterday's records.
pub fn streak_from(today_record: Option<u32>, yesterday_record: Option<u32>) -> (r: u32)
    ensures
        r == streak_step(today_record, yesterday_record),
{
    match today_record {
        Some(s) => s,
        None => match yesterday_record {
            Some(s) => s,
            None => 0,
        },
    }
}

/// What a claim answers, from today's and yesterday's records: `Conflict` when today has one,
/// else yesterday's streak plus one (1 without one).
pub fn claim_from(today_record: Option<u32>, yesterday_record: Option<u32>) -> (r: Result<
    u32,
    RedisFailure,
>)
    ensures
        r == claim_step(today_record, yesterday_record),
{
    if today_record.is_some() {
        return Err(RedisFailure::Conflict);
    }
    let carried = match yesterday_record {
        Some(s) => s,
        None => 0,
    };
    if carried == u32::MAX {
        Err(RedisFailure::StreakLimit)
    } else {
        Ok(carried + 1)
    }
}

/// Whether `player` can still claim today's bonus.
pub fn check_bonus_availability<S: CacheStore>(
    store: &mut S,
    player: &PlayerId,
    today: &CivilDate,
) -> (r: Result<bool, RedisFailure>)
    requires
        old(store).inv(),
        today.wf(),
    ensures
        final(store).inv(),
        final(store).entries() == old(store).entries(),
        final(store).ttls() == old(store).ttls(),
        final(store).faultless() == old(store).faultless(),
        match r {
            Ok(b) => b == available_in(old(store).entries(), *player, *today),
            Err(f) => f is Query,
        },
        old(store).faultless() ==> r is Ok,
{
    let key = derive_key(player, today);
    match store.get(&key) {
        Ok(v) => Ok(availability_from(v)),
        Err(e) => Err(RedisFailure::Query(e)),
    }
}

fn read_yesterday_record<S: CacheStore>(store: &mut S, player: &PlayerId, today: &CivilDate) -> (r:
    Result<Option<u32>, RedisFailure>)
    requires
        old(store).inv(),
        today.wf(),
    ensures
        final(store).inv(),
        final(store).entries() == old(store).entries(),
        final(store).ttls() == old(store).ttls(),
        final(store).faultless() == old(store).faultless(),
        match r {
            Ok(v) => v == yesterday_record_in(old(store).entries(), *player, *today),
            Err(f) => f is Query,
        },
        old(store).faultless() ==> r is Ok,
{
    match yesterday_of(today) {
        None => Ok(None),
        Some(y) => {
            let key = derive_key(player, &y);
            match store.get(&key) {
                Ok(v) => Ok(v),
                Err(e) => Err(RedisFailure::Query(e)),
            }
        },
    }
}

/// The player's current streak: today's record, else yesterday's, else 0. Writes nothing.
pub fn check_bonus_streak<S: CacheStore>(
    store: &mut S,
    player: &PlayerId,
    today: &CivilDate,
) -> (r: Result<u32, RedisFailure>)
    requires
        old(store).inv(),
        today.wf(),
    ensures
        final(store).inv(),
        final(store).entries() == old(store).entries(),
        final(store).ttls() == old(store).ttls(),
        final(store).faultless() == old(store).faultless(),
        match r {
            Ok(s) => s == streak_in(old(store).entries(), *player, *today),
            Err(f) => f is Query,
        },
        old(store).faultless() ==> r is Ok,
{
    let key = derive_key(player, today);
    let today_record = match store.get(&key) {
        Ok(v) => v,
        Err(e) => return Err(RedisFailure::Query(e)),
    };
    if today_record.is_some() {
        return Ok(streak_from(today_record, None));
    }
    match read_yesterday_record(store, player, today) {
        Ok(y) => Ok(streak_from(None, y)),
        Err(f) => Err(f),
    }
}

/// Availability and streak together, as one check answers them.
pub fn check_bonus<S: CacheStore>(store: &mut S, player: &PlayerId, today: &CivilDate) -> (r:
    Result<(bool, u32), RedisFailure>)
    requires
        old(store).inv(),
        today.wf(),
    ensures
        final(store).inv(),
        final(store).entries() == old(store).entries(),
        final(store).ttls() == old(store).ttls(),
        final(store).faultless() == old(store).faultless(),
        match r {
            Ok(t) => t.0 == available_in(old(store).entries(), *player, *today) && t.1
                == streak_in(old(store).entries(), *player, *today),
            Err(f) => f is Query,
        },
        old(store).faultless() ==> r is Ok,
{
    let available = match check_bonus_availability(store, player, today) {
        Ok(b) => b,
        Err(f) => return Err(f),
    };
    match check_bonus_streak(store, player, today) {
        Ok(s) => Ok((available, s)),
        Err(f) => Err(f),
    }
}

/// Claims today's bonus: fails with `Conflict` if today has a record; otherwise writes today's
/// record with yesterday's streak plus one (1 without one) and an expiry of 48 hours, and
/// returns that streak. Issues no payout.
pub fn set_bonus_claimed<S: CacheStore>(
    store: &mut S,
    player: &PlayerId,
    today: &CivilDate,
) -> (r: Result<u32, RedisFailure>)
    requires
        old(store).inv(),
        today.wf(),
    ensures
        final(store).inv(),
        final(store).faultless() == old(store).faultless(),
        old(store).faultless() ==> r == claim_result(old(store).entries(), *player, *today)
            && final(store).entries() == after_claim(old(store).entries(), *player, *today),
        match r {
            Ok(s) => claim_result(old(store).entries(), *player, *today) == Ok::<
                u32,
                RedisFailure,
            >(s) && final(store).entries() == old(store).entries().insert(
                key_chars(*player, *today),
                s,
            ) && final(store).ttls() == old(store).ttls().insert(
                key_chars(*player, *today),
                RECORD_TTL_SECONDS,
            ),
            Err(RedisFailure::Query(_)) => true,
            Err(f) => claim_result(old(store).entries(), *player, *today) == Err::<u32, RedisFailure>(
                f,
            ) && final(store).entries() == old(store).entries() && final(store).ttls() == old(
                store,
            ).ttls(),
        },
{
    let available = match check_bonus_availability(store, player, today) {
        Ok(b) => b,
        Err(f) => return Err(f),
    };
    if !available {
        return Err(RedisFailure::Conflict);
    }
    let yesterday_record = match read_yesterday_record(store, player, today) {
        Ok(v) => v,
        Err(f) => return Err(f),
    };
    let streak = match claim_from(None, yesterday_record) {
        Ok(s) => s,
        Err(f) => return Err(f),
    };
    let key = derive_key(player, today);
    match store.set_with_ttl(&key, streak, RECORD_TTL_SECONDS) {
        Ok(()) => Ok(streak),
        Err(e) => Err(RedisFailure::Query(e)),
    }
}

} // verus!
