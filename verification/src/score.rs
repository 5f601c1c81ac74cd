//! The compatibility filter and the five-factor match score, with the
//! monotonicity facts the scoring formula promises.

use vstd::prelude::*;
use vstd::arithmetic::div_mod::lemma_div_is_ordered;
use vstd::arithmetic::div_mod::lemma_div_multiples_vanish;

use crate::types::DonorData;
use crate::types::ErrorCode;
use crate::types::RecipientData;

verus! {

/// Seconds in one 30-day wait-time unit.
pub const SECONDS_PER_WAIT_UNIT: u64 = 30 * 24 * 60 * 60;

/// The compatibility filter: blood type and organ type must both be
/// exactly equal. This is deliberately stricter than the directional
/// relation `spec_is_compatible_donor`.
pub open spec fn spec_compatible(donor: DonorData, recipient: RecipientData) -> bool {
    donor.blood_type == recipient.blood_type && donor.organ_type == recipient.organ_type
}

/// How many of the first `n` marker slots agree position-wise.
pub open spec fn spec_match_count(donor: Seq<u8>, recipient: Seq<u8>, n: int) -> int
    decreases n,
{
    if n <= 0 {
        0
    } else {
        spec_match_count(donor, recipient, n - 1) + if donor[n - 1] == recipient[n - 1] {
            1int
        } else {
            0int
        }
    }
}

/// HLA score: 10 points per agreeing marker slot, 0 to 50.
pub open spec fn spec_hla_score(donor: DonorData, recipient: RecipientData) -> int {
    10 * spec_match_count(donor.hla_markers@, recipient.hla_markers@, 5)
}

/// Wait-time score: one point per full 30-day unit waited, capped at 50;
/// a recipient created in the future has waited nothing.
pub open spec fn spec_wait_score(now: int, created_at: int) -> int {
    let waited = now - created_at;
    if waited < 0 {
        0
    } else if waited / (SECONDS_PER_WAIT_UNIT as int) >= 50 {
        50
    } else {
        waited / (SECONDS_PER_WAIT_UNIT as int)
    }
}

/// Pediatric bonus: exactly 50 up to age 18, exactly 0 above it.
pub open spec fn spec_age_score(age: u8) -> int {
    if age <= 18 {
        50
    } else {
        0
    }
}

/// Geographic score: 50 minus one point per 100 distance units, floored
/// at 0 (reached at distance 5000).
pub open spec fn spec_geo_score(distance: u32) -> int {
    if distance as int / 100 >= 50 {
        0
    } else {
        50 - distance as int / 100
    }
}

/// The total score of a compatible pair: HLA + urgency + wait time +
/// pediatric bonus + geography.
pub open spec fn spec_match_score(donor: DonorData, recipient: RecipientData, now: int) -> int {
    spec_hla_score(donor, recipient) + recipient.medical_urgency + spec_wait_score(
        now,
        recipient.created_at as int,
    ) + spec_age_score(recipient.age) + spec_geo_score(recipient.geographical_distance)
}

/// What `calculate_match_score` returns: `None` for an incompatible pair,
/// otherwise the total score.
pub open spec fn spec_calculate_match_score(
    donor: DonorData,
    recipient: RecipientData,
    now: int,
) -> Option<u64> {
    if spec_compatible(donor, recipient) {
        Some(spec_match_score(donor, recipient, now) as u64)
    } else {
        None
    }
}

/// The slot-agreement count lies between 0 and `n`.
pub proof fn lemma_match_count_bounds(donor: Seq<u8>, recipient: Seq<u8>, n: int)
    requires
        n >= 0,
    ensures
        0 <= spec_match_count(donor, recipient, n) <= n,
    decreases n,
{
    if n > 0 {
        lemma_match_count_bounds(donor, recipient, n - 1);
    }
}

/// Every component is nonnegative and the total never exceeds 455
/// (50 + 255 + 50 + 50 + 50), so a `u64` holds it exactly.
pub proof fn lemma_match_score_bounds(donor: DonorData, recipient: RecipientData, now: int)
    ensures
        0 <= spec_match_score(donor, recipient, now) <= 455,
{
    lemma_match_count_bounds(donor.hla_markers@, recipient.hla_markers@, 5);
}

/// Scores a donor/recipient pair at time `current_time`: `Ok(None)` when
/// the pair fails the exact-equality compatibility filter, otherwise
/// `Ok(Some(total))`. The total is bounded by 455, so the checked
/// arithmetic never overflows and no error is ever returned.
pub fn calculate_match_score(
    donor: &DonorData,
    recipient: &RecipientData,
    current_time: i64,
) -> (r: Result<Option<u64>, ErrorCode>)
    ensures
        r == Ok::<Option<u64>, ErrorCode>(
            spec_calculate_match_score(*donor, *recipient, current_time as int),
        ),
{
    if donor.blood_type != recipient.blood_type || donor.organ_type != recipient.organ_type {
        return Ok(None);
    }

    let mut hla_score: u64 = 0;
    let mut slot: usize = 0;
    while slot < 5
        invariant
            0 <= slot <= 5,
            hla_score == 10 * spec_match_count(donor.hla_markers@, recipient.hla_markers@, slot as int),
            0 <= hla_score <= 10 * slot,
        decreases 5 - slot,
    {
        if donor.hla_markers[slot] == recipient.hla_markers[slot] {
            hla_score = hla_score + 10;
        }
        slot = slot + 1;
    }

    let urgency_score: u64 = recipient.medical_urgency as u64;

    let wait_score: u64 = match current_time.checked_sub(recipient.created_at) {
        Some(waited) => {
            if waited < 0 {
                0
            } else {
                let units: u64 = (waited as u64) / SECONDS_PER_WAIT_UNIT;
                if units >= 50 {
                    50
                } else {
                    units
                }
            }
        },
        None => {
            // The true difference does not fit in an i64: the recipient
            // either waited far beyond the cap or lies far in the future.
            proof {
                lemma_overflowed_wait_saturates(
                    current_time as int,
                    recipient.created_at as int,
                );
            }
            if current_time >= 0 {
                50
            } else {
                0
            }
        },
    };

    let age_score: u64 = if recipient.age <= 18 {
        50
    } else {
        0
    };

    let distance_units: u32 = recipient.geographical_distance / 100;
    let geo_score: u64 = if distance_units >= 50 {
        0
    } else {
        50 - distance_units as u64
    };

    proof {
        lemma_match_count_bounds(donor.hla_markers@, recipient.hla_markers@, 5);
    }
    let total_score: u64 = hla_score + urgency_score + wait_score + age_score + geo_score;
    Ok(Some(total_score))
}

/// The match filter passes exactly the pairs whose blood type and organ
/// type are both equal: a pair differing in either field is never scored.
pub proof fn lemma_filter_requires_exact_equality(
    donor: DonorData,
    recipient: RecipientData,
    now: int,
)
    ensures
        spec_calculate_match_score(donor, recipient, now) is Some <==> (donor.blood_type
            == recipient.blood_type && donor.organ_type == recipient.organ_type),
{
}

/// The pediatric bonus is all-or-nothing: exactly 50 points through age
/// 18 and exactly 0 from age 19 on.
pub proof fn lemma_pediatric_bonus(age: u8)
    ensures
        age <= 18 ==> spec_age_score(age) == 50,
        age > 18 ==> spec_age_score(age) == 0,
{
}

/// The score never decreases as more marker slots agree: with all other
/// inputs equal, a pair with at least as many agreeing slots scores at
/// least as high.
pub proof fn lemma_score_monotone_markers(
    donor1: DonorData,
    recipient1: RecipientData,
    donor2: DonorData,
    recipient2: RecipientData,
    now: int,
)
    requires
        spec_match_count(donor1.hla_markers@, recipient1.hla_markers@, 5) <= spec_match_count(
            donor2.hla_markers@,
            recipient2.hla_markers@,
            5,
        ),
        recipient1.medical_urgency == recipient2.medical_urgency,
        recipient1.created_at == recipient2.created_at,
        recipient1.age == recipient2.age,
        recipient1.geographical_distance == recipient2.geographical_distance,
    ensures
        spec_match_score(donor1, recipient1, now) <= spec_match_score(donor2, recipient2, now),
{
}

/// The score never decreases in the recipient's urgency value.
pub proof fn lemma_score_monotone_urgency(
    donor: DonorData,
    recipient1: RecipientData,
    recipient2: RecipientData,
    now: int,
)
    requires
        recipient1.medical_urgency <= recipient2.medical_urgency,
        recipient1.hla_markers == recipient2.hla_markers,
        recipient1.created_at == recipient2.created_at,
        recipient1.age == recipient2.age,
        recipient1.geographical_distance == recipient2.geographical_distance,
    ensures
        spec_match_score(donor, recipient1, now) <= spec_match_score(donor, recipient2, now),
{
}

/// The score never decreases as the wait grows: evaluating the same pair
/// at a later time scores at least as high, and from 50 full wait units
/// on the wait-time component sits at its 50-point cap.
pub proof fn lemma_score_monotone_wait_time(
    donor: DonorData,
    recipient: RecipientData,
    now1: int,
    now2: int,
)
    requires
        now1 <= now2,
    ensures
        spec_match_score(donor, recipient, now1) <= spec_match_score(donor, recipient, now2),
        now1 - recipient.created_at >= 50 * (SECONDS_PER_WAIT_UNIT as int) ==> spec_wait_score(
            now1,
            recipient.created_at as int,
        ) == 50,
{
    let unit = SECONDS_PER_WAIT_UNIT as int;
    let waited1 = now1 - recipient.created_at;
    let waited2 = now2 - recipient.created_at;
    if 0 <= waited1 {
        lemma_div_is_ordered(waited1, waited2, unit);
    }
    if waited1 >= 50 * unit {
        lemma_div_is_ordered(unit * 50, waited1, unit);
        lemma_div_multiples_vanish(50, unit);
    }
}

/// The score never increases with geographic distance: a farther
/// recipient scores at most as high, and from 5000 distance units on the
/// geographic component sits at its 0-point floor.
pub proof fn lemma_score_antitone_distance(
    donor: DonorData,
    recipient1: RecipientData,
    recipient2: RecipientData,
    now: int,
)
    requires
        recipient1.geographical_distance <= recipient2.geographical_distance,
        recipient1.hla_markers == recipient2.hla_markers,
        recipient1.medical_urgency == recipient2.medical_urgency,
        recipient1.created_at == recipient2.created_at,
        recipient1.age == recipient2.age,
    ensures
        spec_match_score(donor, recipient1, now) >= spec_match_score(donor, recipient2, now),
        recipient2.geographical_distance >= 5000 ==> spec_geo_score(
            recipient2.geographical_distance,
        ) == 0,
{
    lemma_div_is_ordered(
        recipient1.geographical_distance as int,
        recipient2.geographical_distance as int,
        100,
    );
}

/// A wait outside the `i64` range saturates the wait-time score: past the
/// cap when `now` is at or after the epoch, zero otherwise.
proof fn lemma_overflowed_wait_saturates(now: int, created_at: int)
    requires
        i64::MIN <= now <= i64::MAX,
        i64::MIN <= created_at <= i64::MAX,
        now - created_at > i64::MAX || now - created_at < i64::MIN,
    ensures
        now >= 0 ==> spec_wait_score(now, created_at) == 50,
        now < 0 ==> spec_wait_score(now, created_at) == 0,
{
    let unit = SECONDS_PER_WAIT_UNIT as int;
    if now >= 0 {
        // Underflow is impossible here, so the wait exceeds i64::MAX,
        // which is far past 50 wait units.
        assert(now - created_at > i64::MAX);
        lemma_div_is_ordered(unit * 50, now - created_at, unit);
        lemma_div_multiples_vanish(50, unit);
    }
}

} // verus!
