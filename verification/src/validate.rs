//! Stateless validation of submitted medical data. These checks gate every
//! write to the recipient and donor directories.

use vstd::prelude::*;

use crate::types::ErrorCode;
use crate::types::DonorData;
use crate::types::RecipientData;
use crate::types::MAX_MEDICAL_NOTES_LENGTH;

verus! {

/// What `validate_recipient_data` decides: urgency at most 100, age at most
/// 120, notes at most `MAX_MEDICAL_NOTES_LENGTH` characters, checked in
/// that order.
pub open spec fn spec_validate_recipient_data(data: RecipientData) -> Result<(), ErrorCode> {
    if data.medical_urgency > 100 {
        Err(ErrorCode::InvalidMedicalUrgency)
    } else if data.age > 120 {
        Err(ErrorCode::InvalidAge)
    } else if data.medical_notes@.len() > MAX_MEDICAL_NOTES_LENGTH {
        Err(ErrorCode::MedicalNotesTooLong)
    } else {
        Ok(())
    }
}

/// What `validate_donor_data` decides: notes at most
/// `MAX_MEDICAL_NOTES_LENGTH` characters.
pub open spec fn spec_validate_donor_data(data: DonorData) -> Result<(), ErrorCode> {
    if data.medical_notes@.len() > MAX_MEDICAL_NOTES_LENGTH {
        Err(ErrorCode::MedicalNotesTooLong)
    } else {
        Ok(())
    }
}

/// Checks submitted recipient data against the medical bounds. No side
/// effects.
pub fn validate_recipient_data(data: &RecipientData) -> (r: Result<(), ErrorCode>)
    ensures
        r == spec_validate_recipient_data(*data),
{
    if data.medical_urgency > 100 {
        return Err(ErrorCode::InvalidMedicalUrgency);
    }
    if data.age > 120 {
        return Err(ErrorCode::InvalidAge);
    }
    if data.medical_notes.as_str().unicode_len() > MAX_MEDICAL_NOTES_LENGTH {
        return Err(ErrorCode::MedicalNotesTooLong);
    }
    Ok(())
}

/// Checks submitted donor data against the medical bounds. No side effects.
pub fn validate_donor_data(data: &DonorData) -> (r: Result<(), ErrorCode>)
    ensures
        r == spec_validate_donor_data(*data),
{
    if data.medical_notes.as_str().unicode_len() > MAX_MEDICAL_NOTES_LENGTH {
        return Err(ErrorCode::MedicalNotesTooLong);
    }
    Ok(())
}

} // verus!
