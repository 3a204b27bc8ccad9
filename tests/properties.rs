use iban_validator::{checksum_is_valid, normalize, validate, ValidationErrorCodes};

fn err(code: ValidationErrorCodes) -> Result<bool, String> {
    Err(code.to_string())
}

#[test]
fn error_identifiers_are_stable() {
    assert_eq!(ValidationErrorCodes::ErrorNullValue.to_string(), "ErrorNullValue");
    assert_eq!(ValidationErrorCodes::ErrorMinLength.to_string(), "ErrorMinLength");
    assert_eq!(ValidationErrorCodes::ErrorMaxLength.to_string(), "ErrorMaxLength");
    assert_eq!(ValidationErrorCodes::ErrorFirstTwoLetters.to_string(), "ErrorFirstTwoLetters");
    assert_eq!(ValidationErrorCodes::ErrorChecksum.to_string(), "ErrorChecksum");
}

#[test]
fn whitespace_only_is_null_value() {
    assert_eq!(validate("   \t\n "), err(ValidationErrorCodes::ErrorNullValue));
}

#[test]
fn single_character_is_min_length() {
    assert_eq!(validate("F"), err(ValidationErrorCodes::ErrorMinLength));
}

#[test]
fn fourteen_characters_is_min_length() {
    assert_eq!(validate("NO938601111794"), err(ValidationErrorCodes::ErrorMinLength));
}

#[test]
fn fifteen_characters_is_accepted() {
    assert_eq!(validate("NO9386011117947"), Ok(true));
}

#[test]
fn thirty_four_characters_is_accepted() {
    // The maximum length is inclusive; the expansion has 62 digits.
    let s = "ZZ76ABCDEFGHIJKLMNOPQRSTUVWXYZ1234";
    assert_eq!(s.chars().count(), 34);
    assert_eq!(validate(s), Ok(true));
    let wrong = "AB12345678901234567890123456789012";
    assert_eq!(wrong.chars().count(), 34);
    assert_eq!(validate(wrong), err(ValidationErrorCodes::ErrorChecksum));
}

#[test]
fn thirty_five_characters_is_max_length() {
    let s = "AB123456789012345678901234567890123";
    assert_eq!(s.len(), 35);
    assert_eq!(validate(s), err(ValidationErrorCodes::ErrorMaxLength));
}

#[test]
fn lowercase_country_code_is_first_two_letters() {
    assert_eq!(validate("fr7630006000011234567890189"), err(ValidationErrorCodes::ErrorFirstTwoLetters));
    assert_eq!(validate("Fr7630006000011234567890189"), err(ValidationErrorCodes::ErrorFirstTwoLetters));
}

#[test]
fn non_ascii_country_code_is_first_two_letters() {
    assert_eq!(validate("ÉR7630006000011234567890189"), err(ValidationErrorCodes::ErrorFirstTwoLetters));
}

#[test]
fn length_error_comes_before_letters_and_checksum() {
    assert_eq!(validate("12345"), err(ValidationErrorCodes::ErrorMinLength));
}

#[test]
fn letters_error_comes_before_checksum() {
    assert_eq!(validate("1276300060000112345678901"), err(ValidationErrorCodes::ErrorFirstTwoLetters));
}

#[test]
fn lowercase_body_fails_checksum() {
    assert_eq!(validate("GB33bukb20201555555555"), err(ValidationErrorCodes::ErrorChecksum));
}

#[test]
fn punctuation_in_body_fails_checksum() {
    assert_eq!(validate("GB33-BUKB-2020-1555-5555-55"), err(ValidationErrorCodes::ErrorChecksum));
}

#[test]
fn long_iban_checksum_beyond_u128() {
    // A 31-character IBAN whose expansion has 45 digits, beyond 128 bits.
    assert_eq!(validate("MT84MALT011000012345MTLCAST001S"), Ok(true));
    assert_eq!(validate("MT84MALT011000012345MTLCAST001T"), err(ValidationErrorCodes::ErrorChecksum));
}

#[test]
fn validation_is_idempotent() {
    let s = "DE75 5121 0800 1245 1261 99";
    assert_eq!(validate(s), validate(s));
    let t = "FR7630006000011234567890183";
    assert_eq!(validate(t), validate(t));
}

#[test]
fn inserted_whitespace_is_immaterial() {
    let plain = "GB33BUKB20201555555555";
    let spaced = " G B33\tBUKB 2020\n1555 5555 55 ";
    assert_eq!(validate(plain), validate(spaced));
    assert_eq!(validate(spaced), Ok(true));
    assert_eq!(validate("F R7630006000011234567890183"), err(ValidationErrorCodes::ErrorChecksum));
    // U+00A0 and U+3000 are whitespace too.
    assert_eq!(validate("GB33\u{a0}BUKB\u{3000}20201555555555"), Ok(true));
}

#[test]
fn normalize_keeps_only_non_whitespace_in_order() {
    assert_eq!(normalize(" a b\tc\n"), vec!['a', 'b', 'c']);
    assert_eq!(normalize(""), Vec::<char>::new());
}

#[test]
fn checksum_uses_concatenation() {
    let valid: Vec<char> = "GB82WEST12345698765432".chars().collect();
    assert!(checksum_is_valid(&valid));
    let tampered: Vec<char> = "GB82WEST12345698765433".chars().collect();
    assert!(!checksum_is_valid(&tampered));
    // "0000" rearranged is "0000": remainder 0.
    assert!(!checksum_is_valid(&vec!['0', '0', '0', '0']));
    // "0001": remainder 1.
    assert!(checksum_is_valid(&vec!['0', '0', '0', '1']));
    // "A" expands to "10", not to a single digit: "000A" -> 10, remainder 10.
    assert!(!checksum_is_valid(&vec!['0', '0', '0', 'A']));
    // 98 % 97 == 1: "0098" is valid.
    assert!(checksum_is_valid(&vec!['0', '0', '9', '8']));
    // The first four characters move to the end: "00010" becomes "00001".
    assert!(checksum_is_valid(&vec!['0', '0', '0', '1', '0']));
}

#[test]
fn checksum_rejects_characters_it_cannot_expand() {
    assert!(!checksum_is_valid(&vec!['0', '0', '0', '1', 'a']));
    assert!(!checksum_is_valid(&vec!['0', '0', '0', '1', ' ']));
}
