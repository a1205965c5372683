use vstd::prelude::*;
use vstd::string::*;

verus! {

/// The 6-bit value of one character of the URL-safe base64 alphabet, or 64
/// for a character outside it.
pub open spec fn spec_b64_value(c: char) -> u8 {
    let u = c as u32;
    if 65 <= u <= 90 {  // 'A' to 'Z'
        (u - 65) as u8
    } else if 97 <= u <= 122 {  // 'a' to 'z'
        (u - 71) as u8
    } else if 48 <= u <= 57 {  // '0' to '9'
        (u + 4) as u8
    } else if u == 45 {  // '-'
        62u8
    } else if u == 95 {  // '_'
        63u8
    } else {
        64u8
    }
}

/// Unpadded base64 text is well formed when no character falls outside the
/// alphabet and its length does not leave a single trailing character.
pub open spec fn spec_b64_valid(s: Seq<char>) -> bool {
    s.len() % 4 != 1 && forall|i: int| 0 <= i < s.len() ==> spec_b64_value(#[trigger] s[i]) < 64
}

/// How many whole bytes `n` base64 characters carry.
pub open spec fn spec_b64_decoded_len(n: nat) -> nat {
    (n / 4) * 3 + if n % 4 == 2 {
        1nat
    } else if n % 4 == 3 {
        2nat
    } else {
        0nat
    }
}

/// The 6-bit values of the characters, position by position.
pub open spec fn spec_b64_values(s: Seq<char>) -> Seq<u8> {
    Seq::new(s.len(), |i: int| spec_b64_value(s[i]))
}

/// Byte `j` of the decoding: six bits from each character, packed most
/// significant first; bits beyond the last whole byte are ignored.
pub open spec fn spec_b64_byte(vals: Seq<u8>, j: int) -> u8 {
    let k = 4 * (j / 3);
    if j % 3 == 0 {
        (vals[k] * 4 + vals[k + 1] / 16) as u8
    } else if j % 3 == 1 {
        ((vals[k + 1] % 16) * 16 + vals[k + 2] / 4) as u8
    } else {
        ((vals[k + 2] % 4) * 64 + vals[k + 3]) as u8
    }
}

/// The bytes that URL-safe, unpadded base64 text decodes to, or `None`
/// where the text is no such base64.
pub open spec fn spec_b64_decoded(s: Seq<char>) -> Option<Seq<u8>> {
    if spec_b64_valid(s) {
        Option::Some(
            Seq::new(
                spec_b64_decoded_len(s.len()),
                |j: int| spec_b64_byte(spec_b64_values(s), j),
            ),
        )
    } else {
        Option::None
    }
}

/// The 6-bit value of one URL-safe base64 character; 64 marks a character
/// outside the alphabet.
pub fn b64_value(c: char) -> (v: u8)
    ensures
        v == spec_b64_value(c),
{
    let u = c as u32;
    if 65 <= u && u <= 90 {
        (u - 65) as u8
    } else if 97 <= u && u <= 122 {
        (u - 71) as u8
    } else if 48 <= u && u <= 57 {
        (u + 4) as u8
    } else if u == 45 {
        62
    } else if u == 95 {
        63
    } else {
        64
    }
}

/// Decodes URL-safe base64 without padding, as the claims section of a
/// bearer token is encoded. Text with a character outside the alphabet, or
/// with a single trailing character, is rejected.
pub fn base64url_decode(s: &str) -> (r: Option<Vec<u8>>)
    ensures
        match r {
            Option::Some(bytes) => spec_b64_decoded(s@) == Option::Some(bytes@),
            Option::None => spec_b64_decoded(s@) is None,
        },
{
    let n = s.unicode_len();
    if n % 4 == 1 {
        return Option::None;
    }
    let mut vals: Vec<u8> = Vec::new();
    let mut i: usize = 0;
    while i < n
        invariant
            n == s@.len(),
            0 <= i <= n,
            vals@.len() == i,
            forall|k: int|
                0 <= k < i ==> (#[trigger] vals@[k]) == spec_b64_value(s@[k]) && vals@[k] < 64,
        decreases n - i,
    {
        let v = b64_value(s.get_char(i));
        if v >= 64 {
            return Option::None;
        }
        vals.push(v);
        i += 1;
    }
    proof {
        assert(vals@ =~= spec_b64_values(s@));
        assert forall|k: int| 0 <= k < s@.len() implies spec_b64_value(#[trigger] s@[k]) < 64 by {
            assert(vals@[k] == spec_b64_value(s@[k]));
        }
        assert(spec_b64_valid(s@));
    }
    let q = n / 4;
    let rem = n % 4;
    proof {
        assert(4 * ((n as int) / 4) <= n as int) by (nonlinear_arith);
    }
    let mut out: Vec<u8> = Vec::new();
    let mut g: usize = 0;
    while g < q
        invariant
            n == s@.len(),
            q == n / 4,
            4 * (q as int) <= n as int,
            vals@ == spec_b64_values(s@),
            vals@.len() == n,
            forall|k: int|
                0 <= k < n ==> (#[trigger] vals@[k]) == spec_b64_value(s@[k]) && vals@[k] < 64,
            0 <= g <= q,
            out@.len() == 3 * g,
            forall|j: int| 0 <= j < out@.len() ==> out@[j] == spec_b64_byte(vals@, j),
        decreases q - g,
    {
        let k = 4 * g;
        let v0 = vals[k];
        let v1 = vals[k + 1];
        let v2 = vals[k + 2];
        let v3 = vals[k + 3];
        proof {
            assert((3 * (g as int)) / 3 == g as int && (3 * (g as int)) % 3 == 0
                && (3 * (g as int) + 1) / 3 == g as int && (3 * (g as int) + 1) % 3 == 1 && (3 * (
            g as int) + 2) / 3 == g as int && (3 * (g as int) + 2) % 3 == 2) by (nonlinear_arith);
        }
        out.push(v0 * 4 + v1 / 16);
        out.push((v1 % 16) * 16 + v2 / 4);
        out.push((v2 % 4) * 64 + v3);
        g += 1;
    }
    if rem == 2 {
        let k = 4 * q;
        let v0 = vals[k];
        let v1 = vals[k + 1];
        proof {
            assert((3 * (q as int)) / 3 == q as int && (3 * (q as int)) % 3 == 0)
                by (nonlinear_arith);
        }
        out.push(v0 * 4 + v1 / 16);
    } else if rem == 3 {
        let k = 4 * q;
        let v0 = vals[k];
        let v1 = vals[k + 1];
        let v2 = vals[k + 2];
        proof {
            assert((3 * (q as int)) / 3 == q as int && (3 * (q as int)) % 3 == 0 && (3 * (q as int)
                + 1) / 3 == q as int && (3 * (q as int) + 1) % 3 == 1) by (nonlinear_arith);
        }
        out.push(v0 * 4 + v1 / 16);
        out.push((v1 % 16) * 16 + v2 / 4);
    }
    proof {
        assert(out@ =~= Seq::new(
            spec_b64_decoded_len(s@.len()),
            |j: int| spec_b64_byte(spec_b64_values(s@), j),
        ));
    }
    Option::Some(out)
}

} // verus!
