//! The data model: identities, closed medical enumerations, record types,
//! notification payloads, and the error taxonomy.

use vstd::prelude::*;

verus! {

/// Longest medical-notes text the validators accept, in characters.
pub const MAX_MEDICAL_NOTES_LENGTH: usize = 1000;

/// A caller or record identity. The surrounding storage layer hands one in
/// for every call; the library only ever compares identities for equality.
#[derive(Clone, Copy, Debug, PartialEq, Eq, Structural, Hash)]
pub struct Identity(pub u64);

/// The eight ABO/Rh blood groups.
#[derive(Clone, Copy, Debug, PartialEq, Eq, Structural)]
pub enum BloodType {
    APositive,
    ANegative,
    BPositive,
    BNegative,
    ABPositive,
    ABNegative,
    OPositive,
    ONegative,
}

/// The organs this program allocates.
#[derive(Clone, Copy, Debug, PartialEq, Eq, Structural)]
pub enum OrganType {
    Kidney,
    Liver,
    Heart,
    Lung,
    Pancreas,
}

/// Recipient lifecycle: `Active` until matched; `Removed` is a reserved
/// terminal state that no operation here reaches.
#[derive(Clone, Copy, Debug, PartialEq, Eq, Structural)]
pub enum RecipientStatus {
    Active,
    Matched,
    Removed,
}

/// Donor lifecycle: `Active` until matched; `Withdrawn` is a reserved
/// terminal state that no operation here reaches.
#[derive(Clone, Copy, Debug, PartialEq, Eq, Structural)]
pub enum DonorStatus {
    Active,
    Matched,
    Withdrawn,
}

/// Proposal lifecycle: created `Pending`; `Confirmed` and `Rejected` are
/// terminal. No operation here drives the `Rejected` transition.
#[derive(Clone, Copy, Debug, PartialEq, Eq, Structural)]
pub enum MatchStatus {
    Pending,
    Confirmed,
    Rejected,
}

/// Why an operation was refused. Every error aborts the whole operation:
/// the contracts of the mutating functions say that nothing changed.
#[derive(Clone, Copy, Debug, PartialEq, Eq, Structural)]
pub enum ErrorCode {
    NoCompatibleRecipient,
    RecipientAccountNotFound,
    UnauthorizedAdmin,
    UnauthorizedMedicalAuthority,
    UnauthorizedUpdate,
    InvalidDonorStatus,
    InvalidMatchStatus,
    InvalidMedicalUrgency,
    InvalidAge,
    MedicalNotesTooLong,
    MathOverflow,
}

/// Submitted recipient medical data. `created_at == 0` marks a record slot
/// that has never been written.
#[derive(Clone, Debug, PartialEq)]
pub struct RecipientData {
    pub medical_urgency: u8,
    pub geographical_distance: u32,
    pub hla_markers: [u8; 5],
    pub blood_type: BloodType,
    pub organ_type: OrganType,
    pub age: u8,
    pub created_at: i64,
    pub last_updated: i64,
    pub medical_notes: String,
}

/// Submitted donor medical data.
#[derive(Clone, Debug, PartialEq)]
pub struct DonorData {
    pub hla_markers: [u8; 5],
    pub blood_type: BloodType,
    pub organ_type: OrganType,
    pub medical_notes: String,
}

/// Process-wide configuration: the admin identity, how many recipient
/// records were ever created, and the paused flag.
#[derive(Clone, Copy, Debug, PartialEq, Eq, Structural)]
pub struct ProgramState {
    pub admin: Identity,
    pub recipient_count: u32,
    pub paused: bool,
}

/// A medical authority's registry entry: whether it may act, and how many
/// matches it has confirmed.
#[derive(Clone, Copy, Debug, PartialEq, Eq, Structural)]
pub struct MedicalAuthority {
    pub authority: Identity,
    pub is_active: bool,
    pub verified_matches: u32,
}

/// A stored recipient record: the owning identity, the medical data, and
/// the lifecycle status.
#[derive(Clone, Debug, PartialEq)]
pub struct RecipientAccount {
    pub authority: Identity,
    pub data: RecipientData,
    pub status: RecipientStatus,
}

/// A stored donor record.
#[derive(Clone, Debug, PartialEq)]
pub struct DonorAccount {
    pub authority: Identity,
    pub data: DonorData,
    pub created_at: i64,
    pub status: DonorStatus,
}

/// A match proposal: the pair it binds, the score computed at proposal
/// time (never recomputed), and the lifecycle status.
#[derive(Clone, Copy, Debug, PartialEq, Eq, Structural)]
pub struct MatchAccount {
    pub recipient: Identity,
    pub donor: Identity,
    pub score: u64,
    pub timestamp: i64,
    pub status: MatchStatus,
}

/// Notification payload: a recipient record was created or updated.
#[derive(Clone, Copy, Debug, PartialEq, Eq, Structural)]
pub struct RecipientUpdated {
    pub recipient: Identity,
    pub medical_urgency: u8,
    pub timestamp: i64,
}

/// Notification payload: the engine proposed a match.
#[derive(Clone, Copy, Debug, PartialEq, Eq, Structural)]
pub struct MatchFound {
    pub donor: Identity,
    pub recipient: Identity,
    pub score: u64,
    pub timestamp: i64,
}

/// Notification payload: an authority confirmed a match.
#[derive(Clone, Copy, Debug, PartialEq, Eq, Structural)]
pub struct MatchConfirmed {
    pub match_id: Identity,
    pub donor: Identity,
    pub recipient: Identity,
    pub medical_authority: Identity,
    pub timestamp: i64,
}

/// The directional ABO/Rh compatibility relation: may `donor` blood go to
/// `recipient`? The match filter does not use it (it demands exact
/// equality); it is kept as the documented reference relation.
pub open spec fn spec_is_compatible_donor(donor: BloodType, recipient: BloodType) -> bool {
    ||| donor == BloodType::ONegative
    ||| (donor == BloodType::OPositive && (recipient == BloodType::OPositive
        || recipient == BloodType::APositive || recipient == BloodType::BPositive
        || recipient == BloodType::ABPositive))
    ||| (donor == BloodType::ANegative && (recipient == BloodType::ANegative
        || recipient == BloodType::ABNegative))
    ||| (donor == BloodType::APositive && (recipient == BloodType::APositive
        || recipient == BloodType::ABPositive))
    ||| (donor == BloodType::BNegative && (recipient == BloodType::BNegative
        || recipient == BloodType::ABNegative))
    ||| (donor == BloodType::BPositive && (recipient == BloodType::BPositive
        || recipient == BloodType::ABPositive))
    ||| (donor == BloodType::ABNegative && recipient == BloodType::ABNegative)
    ||| (donor == BloodType::ABPositive && recipient == BloodType::ABPositive)
}

impl BloodType {
    /// Whether this blood group may donate to `recipient` under the
    /// directional ABO/Rh rules.
    pub fn is_compatible_donor(&self, recipient: &BloodType) -> (r: bool)
        ensures
            r == spec_is_compatible_donor(*self, *recipient),
    {
        match (self, recipient) {
            (BloodType::ONegative, _) => true,
            (
                BloodType::OPositive,
                BloodType::OPositive | BloodType::APositive | BloodType::BPositive
                | BloodType::ABPositive,
            ) => true,
            (BloodType::ANegative, BloodType::ANegative | BloodType::ABNegative) => true,
            (BloodType::APositive, BloodType::APositive | BloodType::ABPositive) => true,
            (BloodType::BNegative, BloodType::BNegative | BloodType::ABNegative) => true,
            (BloodType::BPositive, BloodType::BPositive | BloodType::ABPositive) => true,
            (BloodType::ABNegative, BloodType::ABNegative) => true,
            (BloodType::ABPositive, BloodType::ABPositive) => true,
            _ => false,
        }
    }
}

} // verus!
