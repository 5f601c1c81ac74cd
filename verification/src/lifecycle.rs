//! Program bootstrap, the authority registry, the recipient and donor
//! directories, and the Pending -> Confirmed transition with its
//! cross-entity effects. Every mutating operation either applies all of
//! its effects or, on an error, none.

use vstd::prelude::*;

use crate::types::DonorAccount;
use crate::types::DonorData;
use crate::types::DonorStatus;
use crate::types::ErrorCode;
use crate::types::Identity;
use crate::types::MatchAccount;
use crate::types::MatchConfirmed;
use crate::types::MatchStatus;
use crate::types::MedicalAuthority;
use crate::types::ProgramState;
use crate::types::RecipientAccount;
use crate::types::RecipientData;
use crate::types::RecipientStatus;
use crate::types::RecipientUpdated;
use crate::validate::spec_validate_donor_data;
use crate::validate::spec_validate_recipient_data;
use crate::validate::validate_donor_data;
use crate::validate::validate_recipient_data;

verus! {

/// Creates the process-wide configuration: the given admin, no recipients
/// yet, not paused.
pub fn initialize(admin: Identity) -> (state: ProgramState)
    ensures
        state == (ProgramState { admin, recipient_count: 0, paused: false }),
{
    ProgramState { admin, recipient_count: 0, paused: false }
}

/// Creates or updates a medical authority's registry entry. Only the
/// admin may call: anyone else is refused with `UnauthorizedAdmin`. A new
/// entry starts with a zero confirmed-match counter; updating an existing
/// entry keeps its counter and only resets the target identity and the
/// active flag.
pub fn manage_medical_authority(
    state: &ProgramState,
    caller: Identity,
    authority: Identity,
    is_active: bool,
    existing: Option<&MedicalAuthority>,
) -> (r: Result<MedicalAuthority, ErrorCode>)
    ensures
        caller != state.admin ==> r == Err::<MedicalAuthority, ErrorCode>(
            ErrorCode::UnauthorizedAdmin,
        ),
        caller == state.admin ==> r == Ok::<MedicalAuthority, ErrorCode>(
            MedicalAuthority {
                authority,
                is_active,
                verified_matches: match existing {
                    Some(previous) => previous.verified_matches,
                    None => 0,
                },
            },
        ),
{
    if caller != state.admin {
        return Err(ErrorCode::UnauthorizedAdmin);
    }
    let verified_matches: u32 = match existing {
        Some(previous) => previous.verified_matches,
        None => 0,
    };
    Ok(MedicalAuthority { authority, is_active, verified_matches })
}

/// What `upsert_recipient` does to the program state and the recipient
/// record slot, and what it returns. A slot whose `created_at` is 0 has
/// never been written: the call creates the record there. Otherwise it
/// updates only urgency, distance, and the last-updated stamp.
pub open spec fn spec_upsert_recipient(
    state: ProgramState,
    recipient: RecipientAccount,
    patient: Identity,
    authority: MedicalAuthority,
    data: RecipientData,
    now: i64,
) -> (ProgramState, RecipientAccount, Result<RecipientUpdated, ErrorCode>) {
    if !authority.is_active {
        (state, recipient, Err(ErrorCode::UnauthorizedMedicalAuthority))
    } else {
        match spec_validate_recipient_data(data) {
            Err(e) => (state, recipient, Err(e)),
            Ok(_) => {
                if recipient.data.created_at == 0 {
                    if state.recipient_count == u32::MAX {
                        (state, recipient, Err(ErrorCode::MathOverflow))
                    } else {
                        (
                            ProgramState {
                                recipient_count: (state.recipient_count + 1) as u32,
                                ..state
                            },
                            RecipientAccount {
                                authority: patient,
                                data: RecipientData { created_at: now, last_updated: now, ..data },
                                status: RecipientStatus::Active,
                            },
                            Ok(RecipientUpdated {
                                recipient: patient,
                                medical_urgency: data.medical_urgency,
                                timestamp: now,
                            }),
                        )
                    }
                } else if recipient.authority != patient {
                    (state, recipient, Err(ErrorCode::UnauthorizedUpdate))
                } else {
                    (
                        state,
                        RecipientAccount {
                            data: RecipientData {
                                medical_urgency: data.medical_urgency,
                                geographical_distance: data.geographical_distance,
                                last_updated: now,
                                ..recipient.data
                            },
                            ..recipient
                        },
                        Ok(RecipientUpdated {
                            recipient: patient,
                            medical_urgency: data.medical_urgency,
                            timestamp: now,
                        }),
                    )
                }
            },
        }
    }
}

/// Creates or updates the recipient record owned by `patient`, at time
/// `now`, under an active medical authority.
///
/// Creation validates the data, stamps `created_at` and `last_updated`,
/// sets the record Active, and counts it in the program state (refusing
/// with `MathOverflow` if the counter is full). An update requires the
/// caller to own the record and changes only urgency, distance and
/// `last_updated`. On success it returns the recipient-updated
/// notification payload; on any error both records are left unchanged.
pub fn upsert_recipient(
    state: &mut ProgramState,
    recipient: &mut RecipientAccount,
    patient: Identity,
    medical_authority: &MedicalAuthority,
    recipient_data: RecipientData,
    now: i64,
) -> (r: Result<RecipientUpdated, ErrorCode>)
    ensures
        (*final(state), *final(recipient), r) == spec_upsert_recipient(
            *old(state),
            *old(recipient),
            patient,
            *medical_authority,
            recipient_data,
            now,
        ),
        r is Err ==> *final(state) == *old(state) && *final(recipient) == *old(recipient),
{
    if !medical_authority.is_active {
        return Err(ErrorCode::UnauthorizedMedicalAuthority);
    }
    match validate_recipient_data(&recipient_data) {
        Err(e) => {
            return Err(e);
        },
        Ok(_) => {},
    }

    if recipient.data.created_at == 0 {
        let new_count: u32 = match state.recipient_count.checked_add(1) {
            Some(c) => c,
            None => {
                return Err(ErrorCode::MathOverflow);
            },
        };
        recipient.authority = patient;
        recipient.data = recipient_data;
        recipient.data.created_at = now;
        recipient.data.last_updated = now;
        recipient.status = RecipientStatus::Active;
        state.recipient_count = new_count;
        Ok(RecipientUpdated {
            recipient: patient,
            medical_urgency: recipient.data.medical_urgency,
            timestamp: now,
        })
    } else {
        if recipient.authority != patient {
            return Err(ErrorCode::UnauthorizedUpdate);
        }
        recipient.data.medical_urgency = recipient_data.medical_urgency;
        recipient.data.geographical_distance = recipient_data.geographical_distance;
        recipient.data.last_updated = now;
        Ok(RecipientUpdated {
            recipient: patient,
            medical_urgency: recipient_data.medical_urgency,
            timestamp: now,
        })
    }
}

/// Creates the donor record owned by `donor_authority` at time `now`,
/// under an active medical authority and after validating the data. The
/// record starts Active. Storage-level conflicts (re-adding the same
/// owner) are the surrounding layer's concern.
pub fn add_donor(
    medical_authority: &MedicalAuthority,
    donor_authority: Identity,
    donor_data: DonorData,
    now: i64,
) -> (r: Result<DonorAccount, ErrorCode>)
    ensures
        !medical_authority.is_active ==> r == Err::<DonorAccount, ErrorCode>(
            ErrorCode::UnauthorizedMedicalAuthority,
        ),
        medical_authority.is_active && spec_validate_donor_data(donor_data) is Err ==> r
            == Err::<DonorAccount, ErrorCode>(ErrorCode::MedicalNotesTooLong),
        medical_authority.is_active && spec_validate_donor_data(donor_data) is Ok ==> r
            == Ok::<DonorAccount, ErrorCode>(
            DonorAccount {
                authority: donor_authority,
                data: donor_data,
                created_at: now,
                status: DonorStatus::Active,
            },
        ),
{
    if !medical_authority.is_active {
        return Err(ErrorCode::UnauthorizedMedicalAuthority);
    }
    match validate_donor_data(&donor_data) {
        Err(e) => {
            return Err(e);
        },
        Ok(_) => {},
    }
    Ok(DonorAccount {
        authority: donor_authority,
        data: donor_data,
        created_at: now,
        status: DonorStatus::Active,
    })
}

/// Confirms a Pending proposal as one atomic unit: the proposal becomes
/// Confirmed, recipient and donor become Matched, and the confirming
/// authority's counter grows by one. `proposal_ref` is the proposal's
/// storage reference, echoed in the notification payload.
///
/// Refused with `UnauthorizedMedicalAuthority` when the authority is
/// inactive, with `InvalidMatchStatus` when the proposal is not Pending,
/// and with `MathOverflow` when the counter is full; on every error all
/// four records are left exactly as they were.
pub fn confirm_match(
    match_account: &mut MatchAccount,
    recipient: &mut RecipientAccount,
    donor: &mut DonorAccount,
    medical_authority: &mut MedicalAuthority,
    proposal_ref: Identity,
    now: i64,
) -> (r: Result<MatchConfirmed, ErrorCode>)
    ensures
        r is Err ==> *final(match_account) == *old(match_account) && *final(recipient) == *old(
            recipient,
        ) && *final(donor) == *old(donor) && *final(medical_authority) == *old(medical_authority),
        !old(medical_authority).is_active ==> r == Err::<MatchConfirmed, ErrorCode>(
            ErrorCode::UnauthorizedMedicalAuthority,
        ),
        old(medical_authority).is_active && old(match_account).status != MatchStatus::Pending ==> r
            == Err::<MatchConfirmed, ErrorCode>(ErrorCode::InvalidMatchStatus),
        old(medical_authority).is_active && old(match_account).status == MatchStatus::Pending && old(
            medical_authority,
        ).verified_matches == u32::MAX ==> r == Err::<MatchConfirmed, ErrorCode>(
            ErrorCode::MathOverflow,
        ),
        old(medical_authority).is_active && old(match_account).status == MatchStatus::Pending && old(
            medical_authority,
        ).verified_matches < u32::MAX ==> ({
            &&& *final(match_account) == (MatchAccount {
                status: MatchStatus::Confirmed,
                ..*old(match_account)
            })
            &&& *final(recipient) == (RecipientAccount {
                status: RecipientStatus::Matched,
                ..*old(recipient)
            })
            &&& *final(donor) == (DonorAccount { status: DonorStatus::Matched, ..*old(donor) })
            &&& *final(medical_authority) == (MedicalAuthority {
                verified_matches: (old(medical_authority).verified_matches + 1) as u32,
                ..*old(medical_authority)
            })
            &&& r == Ok::<MatchConfirmed, ErrorCode>(
                MatchConfirmed {
                    match_id: proposal_ref,
                    donor: old(donor).authority,
                    recipient: old(recipient).authority,
                    medical_authority: old(medical_authority).authority,
                    timestamp: now,
                },
            )
        }),
{
    if !medical_authority.is_active {
        return Err(ErrorCode::UnauthorizedMedicalAuthority);
    }
    if match_account.status != MatchStatus::Pending {
        return Err(ErrorCode::InvalidMatchStatus);
    }
    let new_verified: u32 = match medical_authority.verified_matches.checked_add(1) {
        Some(c) => c,
        None => {
            return Err(ErrorCode::MathOverflow);
        },
    };

    match_account.status = MatchStatus::Confirmed;
    recipient.status = RecipientStatus::Matched;
    donor.status = DonorStatus::Matched;
    medical_authority.verified_matches = new_verified;

    Ok(MatchConfirmed {
        match_id: proposal_ref,
        donor: donor.authority,
        recipient: recipient.authority,
        medical_authority: medical_authority.authority,
        timestamp: now,
    })
}

/// Upserting twice for the same owner is create-then-update: the second
/// call keeps the identity, markers, blood type, organ type, age,
/// created-at stamp and notes of the first submission, and takes only
/// urgency, distance and the last-updated stamp from the second. The
/// recipient count grows once, on creation only. (A record created at
/// time 0 is indistinguishable from an empty slot, so the creation time
/// must be nonzero.)
pub proof fn lemma_upsert_round_trip(
    state0: ProgramState,
    recipient0: RecipientAccount,
    patient: Identity,
    authority: MedicalAuthority,
    data1: RecipientData,
    time1: i64,
    data2: RecipientData,
    time2: i64,
)
    requires
        authority.is_active,
        recipient0.data.created_at == 0,
        state0.recipient_count < u32::MAX,
        spec_validate_recipient_data(data1) is Ok,
        spec_validate_recipient_data(data2) is Ok,
        time1 != 0,
    ensures
        ({
            let (state1, recipient1, r1) = spec_upsert_recipient(
                state0,
                recipient0,
                patient,
                authority,
                data1,
                time1,
            );
            let (state2, recipient2, r2) = spec_upsert_recipient(
                state1,
                recipient1,
                patient,
                authority,
                data2,
                time2,
            );
            &&& r1 is Ok
            &&& r2 is Ok
            &&& recipient2.authority == patient
            &&& recipient2.data.hla_markers == data1.hla_markers
            &&& recipient2.data.blood_type == data1.blood_type
            &&& recipient2.data.organ_type == data1.organ_type
            &&& recipient2.data.age == data1.age
            &&& recipient2.data.created_at == time1
            &&& recipient2.data.medical_notes == data1.medical_notes
            &&& recipient2.data.medical_urgency == data2.medical_urgency
            &&& recipient2.data.geographical_distance == data2.geographical_distance
            &&& recipient2.data.last_updated == time2
            &&& recipient2.status == RecipientStatus::Active
            &&& state1.recipient_count == state0.recipient_count + 1
            &&& state2 == state1
        }),
{
}

} // verus!
