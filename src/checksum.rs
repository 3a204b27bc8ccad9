use vstd::prelude::*;
use vstd::arithmetic::div_mod::{lemma_add_mod_noop, lemma_mul_mod_noop_left};

verus! {

/// The modulus of the ISO 7064 MOD-97-10 scheme.
pub const MODULUS: u32 = 97;

/// Number of leading characters (country code and check digits) that the
/// checksum moves to the end before expanding.
pub const HEAD_LEN: usize = 4;

pub open spec fn is_decimal_digit(c: char) -> bool {
    '0' as u32 <= c as u32 <= '9' as u32
}

pub open spec fn is_upper_letter(c: char) -> bool {
    'A' as u32 <= c as u32 <= 'Z' as u32
}

/// The characters that the checksum can expand: digits and uppercase ASCII letters.
pub open spec fn is_iban_char(c: char) -> bool {
    is_decimal_digit(c) || is_upper_letter(c)
}

/// Value of one character: `'0'..'9'` are 0 to 9, `'A'..'Z'` are 10 to 35.
pub open spec fn char_value(c: char) -> nat {
    if is_decimal_digit(c) {
        (c as u32 - '0' as u32) as nat
    } else {
        (c as u32 - 'A' as u32 + 10) as nat
    }
}

/// The decimal digits of a value below 100, without leading zero.
pub open spec fn decimal_digits(v: nat) -> Seq<nat> {
    if v < 10 {
        seq![v]
    } else {
        seq![v / 10, v % 10]
    }
}

/// The characters moved: the first four go to the end.
pub open spec fn rearranged(c: Seq<char>) -> Seq<char> {
    c.subrange(HEAD_LEN as int, c.len() as int) + c.subrange(0, HEAD_LEN as int)
}

/// The concatenation of the decimal texts of the characters' values.
pub open spec fn expanded(s: Seq<char>) -> Seq<nat>
    decreases s.len(),
{
    if s.len() == 0 {
        seq![]
    } else {
        expanded(s.drop_last()) + decimal_digits(char_value(s.last()))
    }
}

/// The number that a sequence of decimal digits denotes.
pub open spec fn numeral(d: Seq<nat>) -> nat
    decreases d.len(),
{
    if d.len() == 0 {
        0
    } else {
        numeral(d.drop_last()) * 10 + d.last()
    }
}

/// A candidate of at least four characters passes MOD-97-10 when all its
/// characters are digits or uppercase letters and the numeral of its
/// rearranged expansion leaves remainder 1 modulo 97.
pub open spec fn checksum_holds(c: Seq<char>) -> bool {
    &&& forall|i: int| 0 <= i < c.len() ==> #[trigger] is_iban_char(c[i])
    &&& numeral(expanded(rearranged(c))) % (MODULUS as nat) == 1
}

proof fn lemma_mod_step(x: nat, d: nat)
    ensures
        (((x % 97) * 10 + d) % 97) as int == ((x * 10 + d) % 97) as int,
{
    lemma_mul_mod_noop_left(x as int, 10, 97);
    lemma_add_mod_noop((x % 97) as int * 10, d as int, 97);
    lemma_add_mod_noop(x as int * 10, d as int, 97);
}

proof fn lemma_numeral_push(a: Seq<nat>, d: nat)
    ensures
        numeral(a.push(d)) == numeral(a) * 10 + d,
{
    assert(a.push(d).drop_last() =~= a);
}

proof fn lemma_expanded_step(s: Seq<char>, k: int)
    requires
        0 <= k < s.len(),
    ensures
        expanded(s.subrange(0, k + 1)) == expanded(s.subrange(0, k)) + decimal_digits(
            char_value(s[k]),
        ),
{
    assert(s.subrange(0, k + 1).drop_last() =~= s.subrange(0, k));
}

/// Decides MOD-97-10 on a candidate, reducing modulo 97 one digit at a time
/// so that no intermediate value exceeds a few hundred.
pub fn checksum_is_valid(candidate: &Vec<char>) -> (r: bool)
    requires
        candidate@.len() >= HEAD_LEN,
    ensures
        r == checksum_holds(candidate@),
{
    let n: usize = candidate.len();
    let ghost c = candidate@;
    let ghost r = rearranged(c);
    let mut acc: u32 = 0;
    let mut k: usize = 0;
    while k < n
        invariant
            n == c.len(),
            n >= HEAD_LEN,
            c == candidate@,
            r == rearranged(c),
            r.len() == n,
            0 <= k <= n,
            acc < MODULUS,
            forall|j: int| 0 <= j < k ==> #[trigger] is_iban_char(r[j]),
            acc as nat == numeral(expanded(r.subrange(0, k as int))) % 97,
        decreases n - k,
    {
        let idx: usize = if k < n - HEAD_LEN {
            k + HEAD_LEN
        } else {
            k - (n - HEAD_LEN)
        };
        let ch: char = candidate[idx];
        assert(r[k as int] == c[idx as int]);
        let code: u32 = ch as u32;
        let is_digit: bool = '0' as u32 <= code && code <= '9' as u32;
        let is_letter: bool = 'A' as u32 <= code && code <= 'Z' as u32;
        if !is_digit && !is_letter {
            assert(!is_iban_char(c[idx as int]));
            return false;
        }
        let value: u32 = if is_digit {
            code - '0' as u32
        } else {
            code - 'A' as u32 + 10
        };
        let ghost prefix = expanded(r.subrange(0, k as int));
        proof {
            lemma_expanded_step(r, k as int);
        }
        if value < 10 {
            proof {
                assert(prefix + decimal_digits(value as nat) =~= prefix.push(value as nat));
                lemma_numeral_push(prefix, value as nat);
                lemma_mod_step(numeral(prefix), value as nat);
            }
            acc = (acc * 10 + value) % MODULUS;
        } else {
            let high: u32 = value / 10;
            let low: u32 = value % 10;
            proof {
                assert(prefix + decimal_digits(value as nat) =~= prefix.push(high as nat).push(
                    low as nat,
                ));
                lemma_numeral_push(prefix, high as nat);
                lemma_numeral_push(prefix.push(high as nat), low as nat);
                lemma_mod_step(numeral(prefix), high as nat);
                lemma_mod_step(numeral(prefix.push(high as nat)), low as nat);
            }
            acc = (acc * 10 + high) % MODULUS;
            acc = (acc * 10 + low) % MODULUS;
        }
        k = k + 1;
    }
    assert(r.subrange(0, n as int) =~= r);
    proof {
        assert forall|i: int| 0 <= i < c.len() implies #[trigger] is_iban_char(c[i]) by {
            if i < HEAD_LEN {
                assert(r[n - HEAD_LEN + i] == c[i]);
            } else {
                assert(r[i - HEAD_LEN] == c[i]);
            }
        }
    }
    acc == 1
}

} // verus!
