//! Machine identifier generation: a random 64-bit value rendered as a
//! 16-digit lower-case hexadecimal string.

use vstd::prelude::*;

verus! {

pub open spec fn is_hex_digit(c: char) -> bool {
    (48 <= c as u32 <= 57) || (97 <= c as u32 <= 102)
}

/// A syntactically valid identifier: exactly 16 lower-case hex digits.
pub open spec fn is_hex16(s: Seq<char>) -> bool {
    s.len() == 16 && forall|i: int| 0 <= i < 16 ==> is_hex_digit(#[trigger] s[i])
}

/// The character for one hexadecimal digit (`0`..`9`, then `a`..`f`).
pub open spec fn hex_char(d: int) -> char {
    if d < 10 {
        (48 + d) as char
    } else {
        (87 + d) as char
    }
}

/// The nibble of `v` at position `i`, counting the most significant first.
pub open spec fn nibble(v: u64, i: int) -> u64 {
    (v >> (((15 - i) * 4) as u64)) & 0xf
}

/// `v` written as 16 hex digits, most significant nibble first.
pub open spec fn hex16_seq(v: u64) -> Seq<char> {
    Seq::new(16, |i: int| hex_char(nibble(v, i) as int))
}

pub proof fn lemma_nibble_bound(v: u64, i: int)
    ensures
        nibble(v, i) < 16,
{
    let sh = ((15 - i) * 4) as u64;
    assert((v >> sh) & 0xf < 16) by (bit_vector);
}

pub proof fn lemma_hex16_seq_valid(v: u64)
    ensures
        is_hex16(hex16_seq(v)),
{
    assert forall|i: int| 0 <= i < 16 implies is_hex_digit(#[trigger] hex16_seq(v)[i]) by {
        lemma_nibble_bound(v, i);
    }
}

fn hex_digit_str(d: u64) -> (r: &'static str)
    requires
        d < 16,
    ensures
        r@ =~= seq![hex_char(d as int)],
{
    proof {
        reveal_strlit("a");
        reveal_strlit("b");
        reveal_strlit("c");
        reveal_strlit("d");
        reveal_strlit("e");
        reveal_strlit("f");
    }
    if d < 10 {
        crate::digits::dec_digit_str(d)
    } else if d == 10 {
        "a"
    } else if d == 11 {
        "b"
    } else if d == 12 {
        "c"
    } else if d == 13 {
        "d"
    } else if d == 14 {
        "e"
    } else {
        "f"
    }
}

/// Renders `v` as exactly 16 lower-case hex digits, zero-padded.
pub fn to_hex16(v: u64) -> (r: String)
    ensures
        r@ == hex16_seq(v),
        is_hex16(r@),
{
    let mut s = String::new();
    let mut i: usize = 0;
    proof {
        assert(s@ =~= hex16_seq(v).subrange(0, 0));
    }
    while i < 16
        invariant
            0 <= i <= 16,
            s@ =~= hex16_seq(v).subrange(0, i as int),
        decreases 16 - i,
    {
        let sh: u64 = (15 - i as u64) * 4;
        let d: u64 = (v >> sh) & 0xf;
        proof {
            lemma_nibble_bound(v, i as int);
            assert(d == nibble(v, i as int));
        }
        let ds = hex_digit_str(d);
        s.append(ds);
        i = i + 1;
        proof {
            assert(s@ =~= hex16_seq(v).subrange(0, i as int));
        }
    }
    proof {
        assert(s@ =~= hex16_seq(v));
        lemma_hex16_seq_valid(v);
    }
    s
}

/// Relies on rand::random::<u64>, which draws from the thread-local
/// generator; nothing is promised of the value.
#[verifier::external_body]
fn random_u64() -> u64 {
    rand::random::<u64>()
}

/// Produces one fresh identifier: 16 hex digits from a random 64-bit value.
pub fn generate_id() -> (r: String)
    ensures
        is_hex16(r@),
{
    let v = random_u64();
    to_hex16(v)
}

} // verus!
