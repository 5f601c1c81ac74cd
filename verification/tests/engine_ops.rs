use organ_matching::engine::find_best_match;
use organ_matching::types::BloodType;
use organ_matching::types::DonorAccount;
use organ_matching::types::DonorData;
use organ_matching::types::DonorStatus;
use organ_matching::types::ErrorCode;
use organ_matching::types::Identity;
use organ_matching::types::MatchStatus;
use organ_matching::types::MedicalAuthority;
use organ_matching::types::OrganType;
use organ_matching::types::RecipientAccount;
use organ_matching::types::RecipientData;
use organ_matching::types::RecipientStatus;

fn active_authority() -> MedicalAuthority {
    MedicalAuthority {
        authority: Identity(900),
        is_active: true,
        verified_matches: 0,
    }
}

fn test_donor() -> DonorAccount {
    DonorAccount {
        authority: Identity(1),
        data: DonorData {
            hla_markers: [1, 1, 1, 1, 1],
            blood_type: BloodType::ONegative,
            organ_type: OrganType::Kidney,
            medical_notes: String::new(),
        },
        created_at: 0,
        status: DonorStatus::Active,
    }
}

fn candidate(owner: u64, urgency: u8, markers: [u8; 5]) -> RecipientAccount {
    RecipientAccount {
        authority: Identity(owner),
        data: RecipientData {
            medical_urgency: urgency,
            geographical_distance: 100,
            hla_markers: markers,
            blood_type: BloodType::ONegative,
            organ_type: OrganType::Kidney,
            age: 40,
            created_at: 0,
            last_updated: 0,
            medical_notes: String::new(),
        },
        status: RecipientStatus::Active,
    }
}

#[test]
fn test_find_best_match_empty_list_fails() {
    let r = find_best_match(&test_donor(), &active_authority(), &Vec::new(), 0);
    assert_eq!(r, Err(ErrorCode::NoCompatibleRecipient));
}

#[test]
fn test_find_best_match_all_ineligible_fails() {
    let mut wrong_blood = candidate(10, 90, [1, 1, 1, 1, 1]);
    wrong_blood.data.blood_type = BloodType::ABPositive;
    let mut wrong_organ = candidate(11, 90, [1, 1, 1, 1, 1]);
    wrong_organ.data.organ_type = OrganType::Heart;
    let mut not_active = candidate(12, 90, [1, 1, 1, 1, 1]);
    not_active.status = RecipientStatus::Matched;
    let candidates = vec![wrong_blood, wrong_organ, not_active];
    let r = find_best_match(&test_donor(), &active_authority(), &candidates, 0);
    assert_eq!(r, Err(ErrorCode::NoCompatibleRecipient));
}

#[test]
fn test_find_best_match_zero_score_fails() {
    // Eligible, but every scoring factor is at its floor: no match.
    let mut zero = candidate(10, 0, [9, 9, 9, 9, 9]);
    zero.data.geographical_distance = 5000;
    let r = find_best_match(&test_donor(), &active_authority(), &vec![zero], 0);
    assert_eq!(r, Err(ErrorCode::NoCompatibleRecipient));
}

#[test]
fn test_find_best_match_picks_highest() {
    let candidates = vec![
        candidate(10, 20, [1, 1, 1, 1, 1]),
        candidate(11, 90, [1, 1, 1, 1, 1]),
        candidate(12, 50, [1, 1, 1, 1, 1]),
    ];
    let (proposal, found) =
        find_best_match(&test_donor(), &active_authority(), &candidates, 0).unwrap();
    assert_eq!(proposal.recipient, Identity(11));
    assert_eq!(proposal.donor, Identity(1));
    // HLA 50 + urgency 90 + wait 0 + pediatric 0 + geography 49.
    assert_eq!(proposal.score, 189);
    assert_eq!(proposal.timestamp, 0);
    assert_eq!(proposal.status, MatchStatus::Pending);
    assert_eq!(found.donor, Identity(1));
    assert_eq!(found.recipient, Identity(11));
    assert_eq!(found.score, 189);
}

#[test]
fn test_find_best_match_tie_prefers_first() {
    let candidates = vec![
        candidate(21, 90, [1, 1, 1, 1, 1]),
        candidate(22, 90, [1, 1, 1, 1, 1]),
        candidate(23, 90, [1, 1, 1, 1, 1]),
    ];
    let (proposal, _) =
        find_best_match(&test_donor(), &active_authority(), &candidates, 0).unwrap();
    assert_eq!(proposal.recipient, Identity(21));
}

#[test]
fn test_find_best_match_inactive_authority() {
    let mut authority = active_authority();
    authority.is_active = false;
    let candidates = vec![candidate(10, 90, [1, 1, 1, 1, 1])];
    let r = find_best_match(&test_donor(), &authority, &candidates, 0);
    assert_eq!(r, Err(ErrorCode::UnauthorizedMedicalAuthority));
}

#[test]
fn test_find_best_match_donor_not_active() {
    let mut donor = test_donor();
    donor.status = DonorStatus::Matched;
    let candidates = vec![candidate(10, 90, [1, 1, 1, 1, 1])];
    let r = find_best_match(&donor, &active_authority(), &candidates, 0);
    assert_eq!(r, Err(ErrorCode::InvalidDonorStatus));
}
