use vstd::prelude::*;

use crate::checksum::{expanded, is_iban_char, is_upper_letter, numeral, rearranged, MODULUS};
use crate::normalize::{is_white_space, strip_whitespace};
use crate::validation_error_codes::ValidationErrorCodes;
use crate::{expected_result, has_country_code, iban_outcome, result_view, MAX_LENGTH, MIN_LENGTH};

verus! {

/// Removing whitespace from a concatenation removes it from each part.
pub proof fn lemma_strip_concat(x: Seq<char>, y: Seq<char>)
    ensures
        strip_whitespace(x + y) == strip_whitespace(x) + strip_whitespace(y),
    decreases y.len(),
{
    if y.len() == 0 {
        assert(x + y =~= x);
        assert(strip_whitespace(x) + strip_whitespace(y) =~= strip_whitespace(x));
    } else {
        assert((x + y).drop_last() =~= x + y.drop_last());
        assert((x + y).last() == y.last());
        lemma_strip_concat(x, y.drop_last());
        if !is_white_space(y.last()) {
            assert(strip_whitespace(x) + strip_whitespace(y.drop_last()).push(y.last())
                =~= (strip_whitespace(x) + strip_whitespace(y.drop_last())).push(y.last()));
        }
    }
}

/// A sequence of whitespace characters strips to nothing.
pub proof fn lemma_strip_all_whitespace(w: Seq<char>)
    requires
        forall|i: int| 0 <= i < w.len() ==> #[trigger] is_white_space(w[i]),
    ensures
        strip_whitespace(w) == Seq::<char>::empty(),
    decreases w.len(),
{
    if w.len() > 0 {
        assert(is_white_space(w[w.len() - 1]));
        lemma_strip_all_whitespace(w.drop_last());
    }
}

/// A non-empty input shorter than the minimum length, once whitespace is
/// removed, is rejected as too short.
pub proof fn lemma_short_is_min_length(s: Seq<char>)
    requires
        0 < strip_whitespace(s).len() < MIN_LENGTH,
    ensures
        iban_outcome(s) == Err::<(), ValidationErrorCodes>(ValidationErrorCodes::ErrorMinLength),
{
}

/// An input longer than the maximum length, once whitespace is removed, is
/// rejected as too long.
pub proof fn lemma_long_is_max_length(s: Seq<char>)
    requires
        strip_whitespace(s).len() > MAX_LENGTH,
    ensures
        iban_outcome(s) == Err::<(), ValidationErrorCodes>(ValidationErrorCodes::ErrorMaxLength),
{
}

/// An input of valid length whose first two non-whitespace characters are not
/// both uppercase ASCII letters is rejected for its country code.
pub proof fn lemma_first_two_letters(s: Seq<char>)
    requires
        MIN_LENGTH <= strip_whitespace(s).len() <= MAX_LENGTH,
        !(is_upper_letter(strip_whitespace(s)[0]) && is_upper_letter(strip_whitespace(s)[1])),
    ensures
        iban_outcome(s) == Err::<(), ValidationErrorCodes>(
            ValidationErrorCodes::ErrorFirstTwoLetters,
        ),
{
}

/// For an input that passes the structural checks and holds only digits and
/// uppercase letters, validation succeeds exactly when the rearranged digit
/// expansion leaves remainder 1 modulo 97, and otherwise reports the checksum.
pub proof fn lemma_checksum_decides(s: Seq<char>)
    requires
        MIN_LENGTH <= strip_whitespace(s).len() <= MAX_LENGTH,
        has_country_code(strip_whitespace(s)),
        forall|i: int|
            0 <= i < strip_whitespace(s).len() ==> #[trigger] is_iban_char(strip_whitespace(s)[i]),
    ensures
        iban_outcome(s) is Ok <==> numeral(expanded(rearranged(strip_whitespace(s)))) % (
        MODULUS as nat) == 1,
        iban_outcome(s) is Err ==> iban_outcome(s) == Err::<(), ValidationErrorCodes>(
            ValidationErrorCodes::ErrorChecksum,
        ),
{
}

/// Validation is a function of its input: two results that `validate` may
/// return for the same input are the same.
pub proof fn lemma_same_input_same_result(
    s: Seq<char>,
    r1: Result<bool, String>,
    r2: Result<bool, String>,
)
    requires
        result_view(r1) == expected_result(s),
        result_view(r2) == expected_result(s),
    ensures
        result_view(r1) == result_view(r2),
{
}

/// Inserting whitespace anywhere in the input does not change the outcome.
pub proof fn lemma_whitespace_insertion(a: Seq<char>, w: Seq<char>, b: Seq<char>)
    requires
        forall|i: int| 0 <= i < w.len() ==> #[trigger] is_white_space(w[i]),
    ensures
        iban_outcome(a + w + b) == iban_outcome(a + b),
        expected_result(a + w + b) == expected_result(a + b),
{
    lemma_strip_concat(a + w, b);
    lemma_strip_concat(a, w);
    lemma_strip_concat(a, b);
    lemma_strip_all_whitespace(w);
    assert(strip_whitespace(a) + Seq::<char>::empty() =~= strip_whitespace(a));
}

} // verus!
