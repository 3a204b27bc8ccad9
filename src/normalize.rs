use vstd::prelude::*;

verus! {

/// Whether a character has Unicode's White_Space property, as `char::is_whitespace` decides.
pub uninterp spec fn is_white_space(c: char) -> bool;

/// Relies on `char::is_whitespace`: its answer depends on the character alone.
pub assume_specification[ char::is_whitespace ](c: char) -> (r: bool)
    ensures
        r == is_white_space(c),
;

/// The non-whitespace characters of `s`, in their original order.
pub open spec fn strip_whitespace(s: Seq<char>) -> Seq<char>
    decreases s.len(),
{
    if s.len() == 0 {
        seq![]
    } else if is_white_space(s.last()) {
        strip_whitespace(s.drop_last())
    } else {
        strip_whitespace(s.drop_last()).push(s.last())
    }
}

/// Builds the candidate: the characters of `raw_input` that are not whitespace.
pub fn normalize(raw_input: &str) -> (r: Vec<char>)
    ensures
        r@ == strip_whitespace(raw_input@),
{
    let mut out: Vec<char> = Vec::new();
    for c in it: raw_input.chars()
        invariant
            it.seq() == raw_input@,
            out@ == strip_whitespace(raw_input@.subrange(0, it.index() as int)),
    {
        proof {
            let i = it.index() as int;
            assert(raw_input@.subrange(0, i + 1).drop_last() =~= raw_input@.subrange(0, i));
        }
        if !c.is_whitespace() {
            out.push(c);
        }
    }
    assert(raw_input@.subrange(0, raw_input@.len() as int) =~= raw_input@);
    out
}

} // verus!
