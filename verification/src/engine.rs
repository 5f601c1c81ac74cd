//! Best-candidate selection: a single read-only pass over a
//! caller-supplied candidate list, keeping the highest-scoring eligible
//! recipient and breaking ties in favour of the first one seen.

use vstd::prelude::*;

use crate::score::calculate_match_score;
use crate::score::lemma_match_score_bounds;
use crate::score::spec_compatible;
use crate::score::spec_match_score;
use crate::types::DonorAccount;
use crate::types::DonorData;
use crate::types::DonorStatus;
use crate::types::ErrorCode;
use crate::types::Identity;
use crate::types::MatchAccount;
use crate::types::MatchFound;
use crate::types::MatchStatus;
use crate::types::MedicalAuthority;
use crate::types::RecipientAccount;
use crate::types::RecipientStatus;

verus! {

/// A candidate is eligible when its record is Active and it passes the
/// exact-equality compatibility filter.
pub open spec fn spec_eligible(donor: DonorData, candidate: RecipientAccount) -> bool {
    candidate.status == RecipientStatus::Active && spec_compatible(donor, candidate.data)
}

/// The score an eligible candidate would receive.
pub open spec fn spec_candidate_score(
    donor: DonorData,
    candidate: RecipientAccount,
    now: int,
) -> int {
    spec_match_score(donor, candidate.data, now)
}

/// A candidate the engine may select: eligible with a strictly positive
/// score.
pub open spec fn spec_selectable(donor: DonorData, candidate: RecipientAccount, now: int) -> bool {
    spec_eligible(donor, candidate) && spec_candidate_score(donor, candidate, now) > 0
}

/// Scans the supplied candidates once and proposes a match for the donor.
///
/// Fails with `UnauthorizedMedicalAuthority` when the authority is
/// inactive, with `InvalidDonorStatus` when the donor is not Active, and
/// with `NoCompatibleRecipient` exactly when no candidate is eligible
/// with a positive score. Otherwise it returns a Pending proposal for the
/// highest-scoring eligible candidate — the first-encountered one on
/// equal scores — with the score computed at `current_time`, plus the
/// match-found notification payload.
pub fn find_best_match(
    donor: &DonorAccount,
    medical_authority: &MedicalAuthority,
    candidates: &Vec<RecipientAccount>,
    current_time: i64,
) -> (r: Result<(MatchAccount, MatchFound), ErrorCode>)
    ensures
        !medical_authority.is_active ==> r == Err::<(MatchAccount, MatchFound), ErrorCode>(
            ErrorCode::UnauthorizedMedicalAuthority,
        ),
        medical_authority.is_active && donor.status != DonorStatus::Active ==> r == Err::<
            (MatchAccount, MatchFound),
            ErrorCode,
        >(ErrorCode::InvalidDonorStatus),
        medical_authority.is_active && donor.status == DonorStatus::Active ==> (match r {
            Ok(proposal) => ({
                let m = proposal.0;
                let found = proposal.1;
                &&& m.donor == donor.authority
                &&& m.timestamp == current_time
                &&& m.status == MatchStatus::Pending
                &&& m.score > 0
                &&& found == (MatchFound {
                    donor: donor.authority,
                    recipient: m.recipient,
                    score: m.score,
                    timestamp: current_time,
                })
                &&& exists|j: int|
                    {
                        &&& 0 <= j < candidates@.len()
                        &&& #[trigger] spec_selectable(donor.data, candidates@[j], current_time as int)
                        &&& m.recipient == candidates@[j].authority
                        &&& m.score == spec_candidate_score(
                            donor.data,
                            candidates@[j],
                            current_time as int,
                        )
                        &&& forall|k: int|
                            0 <= k < j && #[trigger] spec_eligible(donor.data, candidates@[k])
                                ==> spec_candidate_score(donor.data, candidates@[k], current_time as int)
                                < m.score
                    }
                &&& forall|k: int|
                    0 <= k < candidates@.len() && #[trigger] spec_eligible(
                        donor.data,
                        candidates@[k],
                    ) ==> spec_candidate_score(donor.data, candidates@[k], current_time as int)
                        <= m.score
            }),
            Err(e) => ({
                &&& e == ErrorCode::NoCompatibleRecipient
                &&& forall|i: int|
                    0 <= i < candidates@.len() ==> !#[trigger] spec_selectable(
                        donor.data,
                        candidates@[i],
                        current_time as int,
                    )
            }),
        }),
{
    if !medical_authority.is_active {
        return Err(ErrorCode::UnauthorizedMedicalAuthority);
    }
    if donor.status != DonorStatus::Active {
        return Err(ErrorCode::InvalidDonorStatus);
    }

    let mut best_recipient: Option<Identity> = None;
    let mut highest_score: u64 = 0;
    let ghost mut best_index: int = 0;

    let mut i: usize = 0;
    while i < candidates.len()
        invariant
            0 <= i <= candidates@.len(),
            best_recipient is None ==> highest_score == 0 && (forall|k: int|
                0 <= k < i && #[trigger] spec_eligible(donor.data, candidates@[k])
                    ==> spec_candidate_score(donor.data, candidates@[k], current_time as int)
                    <= 0),
            best_recipient matches Some(id) ==> ({
                &&& 0 <= best_index < i
                &&& spec_selectable(donor.data, candidates@[best_index], current_time as int)
                &&& id == candidates@[best_index].authority
                &&& highest_score == spec_candidate_score(
                    donor.data,
                    candidates@[best_index],
                    current_time as int,
                )
                &&& highest_score > 0
                &&& forall|k: int|
                    0 <= k < i && #[trigger] spec_eligible(donor.data, candidates@[k])
                        ==> spec_candidate_score(donor.data, candidates@[k], current_time as int)
                        <= highest_score
                &&& forall|k: int|
                    0 <= k < best_index && #[trigger] spec_eligible(donor.data, candidates@[k])
                        ==> spec_candidate_score(donor.data, candidates@[k], current_time as int)
                        < highest_score
            }),
        decreases candidates@.len() - i,
    {
        let candidate = &candidates[i];
        if candidate.status == RecipientStatus::Active {
            match calculate_match_score(&donor.data, &candidate.data, current_time) {
                Ok(Some(score)) => {
                    proof {
                        lemma_match_score_bounds(donor.data, candidate.data, current_time as int);
                        assert(spec_eligible(donor.data, candidates@[i as int]));
                        assert(spec_candidate_score(
                            donor.data,
                            candidates@[i as int],
                            current_time as int,
                        ) == score);
                    }
                    if score > highest_score {
                        highest_score = score;
                        best_recipient = Some(candidate.authority);
                        proof {
                            best_index = i as int;
                        }
                    } else {
                        proof {
                            if best_recipient is None {
                                assert(spec_candidate_score(
                                    donor.data,
                                    candidates@[i as int],
                                    current_time as int,
                                ) <= 0);
                            }
                        }
                    }
                },
                Ok(None) => {
                    proof {
                        assert(!spec_eligible(donor.data, candidates@[i as int]));
                    }
                },
                Err(e) => {
                    return Err(e);
                },
            }
        } else {
            proof {
                assert(!spec_eligible(donor.data, candidates@[i as int]));
            }
        }
        i = i + 1;
    }

    match best_recipient {
        Some(recipient_key) => {
            let proposal = MatchAccount {
                recipient: recipient_key,
                donor: donor.authority,
                score: highest_score,
                timestamp: current_time,
                status: MatchStatus::Pending,
            };
            let found = MatchFound {
                donor: donor.authority,
                recipient: recipient_key,
                score: highest_score,
                timestamp: current_time,
            };
            Ok((proposal, found))
        },
        None => Err(ErrorCode::NoCompatibleRecipient),
    }
}

} // verus!
