//! What holds of checks and claims across days, over the cache model that the engine's
//! contracts use.

use crate::calendar::{consecutive, CivilDate};
use crate::engine::{after_claim, available_in, claim_result, record_of, streak_in, RedisFailure};
use crate::key::{key_chars, lemma_keys_collision_free, PlayerId};
use vstd::prelude::*;

verus! {

proof fn lemma_distinct_days_distinct_keys(player: PlayerId, d: CivilDate, e: CivilDate)
    requires
        d.wf(),
        e.wf(),
        d != e,
    ensures
        key_chars(player, d) != key_chars(player, e),
{
    if key_chars(player, d) == key_chars(player, e) {
        lemma_keys_collision_free(player, d, player, e);
    }
}

/// Once a claim on a day succeeds, the bonus of that day is no longer available.
pub proof fn lemma_claimed_day_unavailable(m: Map<Seq<char>, u32>, player: PlayerId, d: CivilDate)
    requires
        d.wf(),
        claim_result(m, player, d) is Ok,
    ensures
        !available_in(after_claim(m, player, d), player, d),
{
}

/// A claim on the day after a successful claim extends its streak by one.
pub proof fn lemma_consecutive_claims_extend(
    m: Map<Seq<char>, u32>,
    player: PlayerId,
    d: CivilDate,
    e: CivilDate,
)
    requires
        d.wf(),
        e.wf(),
        consecutive(d, e),
    ensures
        claim_result(m, player, d) matches Ok(s1) ==> (claim_result(
            after_claim(m, player, d),
            player,
            e,
        ) matches Ok(s2) ==> s2 == s1 + 1),
        claim_result(m, player, d) matches Ok(s1) ==> (record_of(m, player, e) is None && s1
            < u32::MAX ==> claim_result(after_claim(m, player, d), player, e) == Ok::<
            u32,
            RedisFailure,
        >((s1 + 1) as u32)),
{
    lemma_distinct_days_distinct_keys(player, d, e);
}

/// With no claim on the day in between, a claim two days after a claim starts again at 1.
pub proof fn lemma_gap_resets_streak(
    m: Map<Seq<char>, u32>,
    player: PlayerId,
    d: CivilDate,
    e1: CivilDate,
    e2: CivilDate,
)
    requires
        d.wf(),
        e1.wf(),
        e2.wf(),
        consecutive(d, e1),
        consecutive(e1, e2),
        record_of(m, player, e1) is None,
    ensures
        claim_result(m, player, d) is Ok ==> (claim_result(after_claim(m, player, d), player, e2) is Ok
            ==> claim_result(after_claim(m, player, d), player, e2) == Ok::<u32, RedisFailure>(1)),
        claim_result(m, player, d) is Ok && record_of(m, player, e2) is None ==> claim_result(
            after_claim(m, player, d),
            player,
            e2,
        ) == Ok::<u32, RedisFailure>(1),
{
    lemma_distinct_days_distinct_keys(player, d, e1);
    lemma_distinct_days_distinct_keys(player, d, e2);
}

/// A second claim on the same day, right after a successful one, is a conflict.
pub proof fn lemma_second_claim_conflicts(m: Map<Seq<char>, u32>, player: PlayerId, d: CivilDate)
    requires
        d.wf(),
        claim_result(m, player, d) is Ok,
    ensures
        claim_result(after_claim(m, player, d), player, d) == Err::<u32, RedisFailure>(
            RedisFailure::Conflict,
        ),
{
}

/// A player with no claim record at all has a streak of 0.
pub proof fn lemma_no_claims_no_streak(m: Map<Seq<char>, u32>, player: PlayerId, d: CivilDate)
    requires
        d.wf(),
        forall|day: CivilDate| day.wf() ==> #[trigger] record_of(m, player, day) is None,
    ensures
        streak_in(m, player, d) == 0,
{
}

/// The streak that a claim writes is the streak that a check on the same day reads back.
pub proof fn lemma_claim_round_trip(m: Map<Seq<char>, u32>, player: PlayerId, d: CivilDate)
    requires
        d.wf(),
    ensures
        claim_result(m, player, d) matches Ok(s) ==> streak_in(after_claim(m, player, d), player, d)
            == s,
{
}

} // verus!
