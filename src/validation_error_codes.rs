use vstd::prelude::*;

verus! {

/// The closed set of reasons for which a candidate IBAN is rejected.
///
/// Each variant has a stable textual identifier (see `code`), so that a caller
/// in any host environment can branch on the outcome without this type.
#[derive(Debug, Clone, Copy, PartialEq, Eq, Structural)]
pub enum ValidationErrorCodes {
    ErrorNullValue,
    ErrorMaxLength,
    ErrorFirstTwoLetters,
    ErrorChecksum,
    ErrorMinLength,
}

impl ValidationErrorCodes {
    /// The stable identifier of this error: the variant's name.
    pub open spec fn code(self) -> Seq<char> {
        match self {
            ValidationErrorCodes::ErrorNullValue => "ErrorNullValue"@,
            ValidationErrorCodes::ErrorMaxLength => "ErrorMaxLength"@,
            ValidationErrorCodes::ErrorFirstTwoLetters => "ErrorFirstTwoLetters"@,
            ValidationErrorCodes::ErrorChecksum => "ErrorChecksum"@,
            ValidationErrorCodes::ErrorMinLength => "ErrorMinLength"@,
        }
    }

    /// Returns the stable identifier of this error as an owned string.
    pub fn to_string(&self) -> (r: String)
        ensures
            r@ == self.code(),
    {
        match self {
            ValidationErrorCodes::ErrorNullValue => String::from_str("ErrorNullValue"),
            ValidationErrorCodes::ErrorMaxLength => String::from_str("ErrorMaxLength"),
            ValidationErrorCodes::ErrorFirstTwoLetters => String::from_str("ErrorFirstTwoLetters"),
            ValidationErrorCodes::ErrorChecksum => String::from_str("ErrorChecksum"),
            ValidationErrorCodes::ErrorMinLength => String::from_str("ErrorMinLength"),
        }
    }
}

/// Distinct errors have distinct identifiers, so the identifier names exactly one error.
pub proof fn lemma_codes_are_distinct(a: ValidationErrorCodes, b: ValidationErrorCodes)
    ensures
        a.code() == b.code() <==> a == b,
{
    reveal_strlit("ErrorNullValue");
    reveal_strlit("ErrorMaxLength");
    reveal_strlit("ErrorFirstTwoLetters");
    reveal_strlit("ErrorChecksum");
    reveal_strlit("ErrorMinLength");
    if a != b {
        assert(a.code()[6] != b.code()[6] || a.code().len() != b.code().len());
    }
}

} // verus!
