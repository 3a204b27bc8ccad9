//! Validation of International Bank Account Numbers: whitespace is removed,
//! then presence, length, country-code casing and the ISO 7064 MOD-97-10
//! checksum are checked in that order, and the first failing check is reported.
use vstd::prelude::*;

mod checksum;
mod laws;
mod normalize;
mod validation_error_codes;

pub use checksum::{
    char_value, checksum_holds, checksum_is_valid, decimal_digits, expanded, is_decimal_digit,
    is_iban_char, is_upper_letter, numeral, rearranged, HEAD_LEN, MODULUS,
};
pub use laws::{
    lemma_checksum_decides, lemma_first_two_letters, lemma_long_is_max_length,
    lemma_same_input_same_result, lemma_short_is_min_length, lemma_strip_all_whitespace,
    lemma_strip_concat, lemma_whitespace_insertion,
};
pub use normalize::{is_white_space, normalize, strip_whitespace};
pub use validation_error_codes::{lemma_codes_are_distinct, ValidationErrorCodes};

verus! {

/// Shortest valid IBAN, in characters.
pub const MIN_LENGTH: usize = 15;

/// Longest valid IBAN, in characters.
pub const MAX_LENGTH: usize = 34;

/// Whether the first two characters form an uppercase ASCII country code.
pub open spec fn has_country_code(c: Seq<char>) -> bool {
    c.len() >= 2 && is_upper_letter(c[0]) && is_upper_letter(c[1])
}

/// The outcome for a candidate that holds no whitespace: the first check that fails.
pub open spec fn candidate_outcome(c: Seq<char>) -> Result<(), ValidationErrorCodes> {
    if c.len() == 0 {
        Err(ValidationErrorCodes::ErrorNullValue)
    } else if c.len() < MIN_LENGTH {
        Err(ValidationErrorCodes::ErrorMinLength)
    } else if c.len() > MAX_LENGTH {
        Err(ValidationErrorCodes::ErrorMaxLength)
    } else if !has_country_code(c) {
        Err(ValidationErrorCodes::ErrorFirstTwoLetters)
    } else if !checksum_holds(c) {
        Err(ValidationErrorCodes::ErrorChecksum)
    } else {
        Ok(())
    }
}

/// The outcome of validating raw input: whitespace is immaterial.
pub open spec fn iban_outcome(s: Seq<char>) -> Result<(), ValidationErrorCodes> {
    candidate_outcome(strip_whitespace(s))
}

/// What `validate` returns for raw input `s`, with each error as its identifier.
pub open spec fn expected_result(s: Seq<char>) -> Result<bool, Seq<char>> {
    match iban_outcome(s) {
        Ok(()) => Ok(true),
        Err(e) => Err(e.code()),
    }
}

/// The mathematical value of a result of `validate`.
pub open spec fn result_view(r: Result<bool, String>) -> Result<bool, Seq<char>> {
    match r {
        Ok(b) => Ok(b),
        Err(m) => Err(m@),
    }
}

fn validate_not_null(candidate: &Vec<char>) -> (r: Result<(), ValidationErrorCodes>)
    ensures
        r == (if candidate@.len() == 0 {
            Err(ValidationErrorCodes::ErrorNullValue)
        } else {
            Ok::<(), ValidationErrorCodes>(())
        }),
{
    if candidate.len() == 0 {
        return Err(ValidationErrorCodes::ErrorNullValue);
    }
    Ok(())
}

fn validate_length(candidate: &Vec<char>) -> (r: Result<(), ValidationErrorCodes>)
    ensures
        r == (if candidate@.len() < MIN_LENGTH {
            Err(ValidationErrorCodes::ErrorMinLength)
        } else if candidate@.len() > MAX_LENGTH {
            Err(ValidationErrorCodes::ErrorMaxLength)
        } else {
            Ok::<(), ValidationErrorCodes>(())
        }),
{
    if candidate.len() < MIN_LENGTH {
        return Err(ValidationErrorCodes::ErrorMinLength);
    }
    if candidate.len() <= MAX_LENGTH {
        return Ok(());
    }
    Err(ValidationErrorCodes::ErrorMaxLength)
}

fn validate_first_letters(candidate: &Vec<char>) -> (r: Result<(), ValidationErrorCodes>)
    requires
        candidate@.len() >= 2,
    ensures
        r == (if has_country_code(candidate@) {
            Ok::<(), ValidationErrorCodes>(())
        } else {
            Err(ValidationErrorCodes::ErrorFirstTwoLetters)
        }),
{
    let first: u32 = candidate[0] as u32;
    let second: u32 = candidate[1] as u32;
    if 'A' as u32 <= first && first <= 'Z' as u32 && 'A' as u32 <= second && second <= 'Z' as u32 {
        return Ok(());
    }
    Err(ValidationErrorCodes::ErrorFirstTwoLetters)
}

fn validate_checksum(candidate: &Vec<char>) -> (r: Result<(), ValidationErrorCodes>)
    requires
        candidate@.len() >= HEAD_LEN,
    ensures
        r == (if checksum_holds(candidate@) {
            Ok::<(), ValidationErrorCodes>(())
        } else {
            Err(ValidationErrorCodes::ErrorChecksum)
        }),
{
    if checksum_is_valid(candidate) {
        return Ok(());
    }
    Err(ValidationErrorCodes::ErrorChecksum)
}

/// Runs the checks in order on a candidate that holds no whitespace.
fn validate_candidate(candidate: &Vec<char>) -> (r: Result<(), ValidationErrorCodes>)
    ensures
        r == candidate_outcome(candidate@),
{
    validate_not_null(candidate)?;
    validate_length(candidate)?;
    validate_first_letters(candidate)?;
    validate_checksum(candidate)?;
    Ok(())
}

/// Validates raw input as an IBAN. Whitespace anywhere is ignored. Returns
/// `Ok(true)` when every check passes, else the identifier of the first
/// failing check.
pub fn validate(raw_input: &str) -> (r: Result<bool, String>)
    ensures
        result_view(r) == expected_result(raw_input@),
{
    let candidate: Vec<char> = normalize(raw_input);
    match validate_candidate(&candidate) {
        Ok(()) => Ok(true),
        Err(e) => Err(e.to_string()),
    }
}

} // verus!
