use vstd::prelude::*;
use vstd::string::*;

verus! {

/// Character-by-character string equality, proved equivalent to equality of
/// the two views.
pub fn str_eq(a: &str, b: &str) -> (r: bool)
    ensures
        r == (a@ == b@),
{
    let a_len = a.unicode_len();
    let b_len = b.unicode_len();
    if a_len != b_len {
        return false;
    }
    let mut i: usize = 0;
    while i < a_len
        invariant
            a_len == a@.len(),
            b_len == b@.len(),
            a_len == b_len,
            0 <= i <= a_len,
            forall|k: int| 0 <= k < i ==> a@[k] == b@[k],
        decreases a_len - i,
    {
        if a.get_char(i) != b.get_char(i) {
            return false;
        }
        i += 1;
    }
    proof {
        assert(a@ =~= b@);
    }
    true
}

/// The TXT record name that carries the DNS-01 challenge for a domain.
pub fn challenge_record_name(domain: &str) -> (r: String)
    ensures
        r@ == "_acme-challenge."@ + domain@,
{
    let mut name = String::from_str("_acme-challenge.");
    name.append(domain);
    name
}

/// Whether the expected challenge value appears, by exact string equality,
/// among the TXT values one nameserver returned.
pub open spec fn spec_txt_match(values: Seq<Seq<char>>, challenge: Seq<char>) -> bool {
    exists|i: int| 0 <= i < values.len() && values[i] == challenge
}

/// True iff the expected challenge string appears exactly (full string
/// equality, not containment) among the returned TXT values. An absent or
/// empty answer yields false, the normal pre-propagation state, never an
/// error.
pub fn has_single_acme(values: &Vec<String>, challenge: &str) -> (r: bool)
    ensures
        r == spec_txt_match(values.deep_view(), challenge@),
{
    let mut i: usize = 0;
    while i < values.len()
        invariant
            0 <= i <= values@.len(),
            forall|k: int| 0 <= k < i ==> values.deep_view()[k] != challenge@,
        decreases values@.len() - i,
    {
        if str_eq(values[i].as_str(), challenge) {
            assert(values.deep_view()[i as int] == challenge@);
            return true;
        }
        i += 1;
    }
    false
}

/// A value that is a strict part of the challenge, or strictly extends it,
/// has a different length, so it can never be equal to the challenge.
pub open spec fn spec_strict_affix(part: Seq<char>, whole: Seq<char>) -> bool {
    part.len() < whole.len() && exists|k: int|
        0 <= k <= whole.len() - part.len() && part == #[trigger] whole.subrange(
            k,
            k + part.len(),
        )
}

/// Exact-match law: a TXT value that is a strict substring or strict
/// superstring of the expected challenge never counts as a match.
pub proof fn law_no_partial_match(values: Seq<Seq<char>>, challenge: Seq<char>)
    requires
        forall|i: int|
            0 <= i < values.len() ==> spec_strict_affix(#[trigger] values[i], challenge)
                || spec_strict_affix(challenge, values[i]),
    ensures
        !spec_txt_match(values, challenge),
{
    assert forall|i: int| 0 <= i < values.len() implies values[i] != challenge by {
        assert(values[i].len() != challenge.len());
    }
}

} // verus!
