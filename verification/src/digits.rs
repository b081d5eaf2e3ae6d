//! Fixed-width decimal rendering and reading, zero-padded.
//!
//! Backup file names and generated numeric suffixes are all fixed-width
//! decimal fields; rendering and reading are exact inverses on values that
//! fit the width.

use vstd::prelude::*;
use vstd::arithmetic::div_mod::{lemma_fundamental_div_mod, lemma_div_pos_is_pos};
use vstd::arithmetic::power::pow;
use crate::chars::is_digit_char;

verus! {

/// The character for one decimal digit.
pub open spec fn dec_char(d: int) -> char {
    (48 + d) as char
}

/// `v` written in decimal, zero-padded to exactly `width` digits
/// (most significant first); only the lowest `width` digits of `v` appear.
pub open spec fn dec_seq(v: int, width: nat) -> Seq<char>
    decreases width,
{
    if width == 0 {
        Seq::empty()
    } else {
        dec_seq(v / 10, (width - 1) as nat).push(dec_char(v % 10))
    }
}

/// The value of a digit string read in decimal.
pub open spec fn dec_value(s: Seq<char>) -> int
    decreases s.len(),
{
    if s.len() == 0 {
        0
    } else {
        dec_value(s.drop_last()) * 10 + (s.last() as u32 - 48)
    }
}

pub proof fn lemma_dec_seq_wf(v: int, width: nat)
    requires
        0 <= v,
    ensures
        dec_seq(v, width).len() == width,
        forall|i: int| 0 <= i < width ==> is_digit_char(#[trigger] dec_seq(v, width)[i]),
    decreases width,
{
    if width > 0 {
        lemma_dec_seq_wf(v / 10, (width - 1) as nat);
        lemma_div_pos_is_pos(v, 10);
        assert(0 <= v % 10 < 10);
        assert(is_digit_char(dec_char(v % 10)));
    }
}

/// Reading back a rendered value gives the value, as long as it fits the width.
pub proof fn lemma_dec_round_trip(v: int, width: nat)
    requires
        0 <= v < pow(10, width),
    ensures
        dec_value(dec_seq(v, width)) == v,
    decreases width,
{
    reveal(vstd::arithmetic::power::pow);
    if width == 0 {
        assert(pow(10, 0) == 1);
    } else {
        let s = dec_seq(v, width);
        lemma_dec_seq_wf(v, width);
        assert(s.drop_last() =~= dec_seq(v / 10, (width - 1) as nat));
        lemma_fundamental_div_mod(v, 10);
        lemma_div_pos_is_pos(v, 10);
        assert(pow(10, width) == 10 * pow(10, (width - 1) as nat));
        assert(v / 10 < pow(10, (width - 1) as nat)) by {
            if v / 10 >= pow(10, (width - 1) as nat) {
                assert(v >= 10 * pow(10, (width - 1) as nat)) by (nonlinear_arith)
                    requires v / 10 >= pow(10, (width - 1) as nat) && v >= 0;
            }
        }
        lemma_dec_round_trip(v / 10, (width - 1) as nat);
        assert(s.last() == dec_char(v % 10));
        assert(dec_char(v % 10) as u32 - 48 == v % 10);
    }
}

/// Zero-padded rendering is monotone: a smaller value of the same width
/// renders lexicographically smaller.
pub proof fn lemma_dec_seq_ordered(v1: int, v2: int, width: nat)
    requires
        0 <= v1 < v2 < pow(10, width),
    ensures
        crate::chars::lex_lt(dec_seq(v1, width), dec_seq(v2, width)),
    decreases width,
{
    reveal(vstd::arithmetic::power::pow);
    if width == 0 {
        assert(false);
    } else {
        let x = dec_seq(v1 / 10, (width - 1) as nat);
        let y = dec_seq(v2 / 10, (width - 1) as nat);
        lemma_dec_seq_wf(v1 / 10, (width - 1) as nat);
        lemma_dec_seq_wf(v2 / 10, (width - 1) as nat);
        crate::chars::lemma_lex_push(x, y, dec_char(v1 % 10), dec_char(v2 % 10));
        lemma_fundamental_div_mod(v1, 10);
        lemma_fundamental_div_mod(v2, 10);
        lemma_div_pos_is_pos(v1, 10);
        assert(v2 / 10 < pow(10, (width - 1) as nat)) by {
            if v2 / 10 >= pow(10, (width - 1) as nat) {
                assert(v2 >= 10 * pow(10, (width - 1) as nat)) by (nonlinear_arith)
                    requires v2 / 10 >= pow(10, (width - 1) as nat) && v2 >= 0;
            }
        }
        vstd::arithmetic::div_mod::lemma_div_is_ordered(v1, v2, 10);
        if v1 / 10 == v2 / 10 {
            assert(x == y);
            assert(v1 % 10 < v2 % 10);
            assert((dec_char(v1 % 10) as u32) < (dec_char(v2 % 10) as u32));
        } else {
            lemma_dec_seq_ordered(v1 / 10, v2 / 10, (width - 1) as nat);
        }
    }
}

pub(crate) fn dec_digit_str(d: u64) -> (r: &'static str)
    requires
        d < 10,
    ensures
        r@ =~= seq![dec_char(d as int)],
{
    proof {
        reveal_strlit("0");
        reveal_strlit("1");
        reveal_strlit("2");
        reveal_strlit("3");
        reveal_strlit("4");
        reveal_strlit("5");
        reveal_strlit("6");
        reveal_strlit("7");
        reveal_strlit("8");
        reveal_strlit("9");
    }
    if d == 0 {
        "0"
    } else if d == 1 {
        "1"
    } else if d == 2 {
        "2"
    } else if d == 3 {
        "3"
    } else if d == 4 {
        "4"
    } else if d == 5 {
        "5"
    } else if d == 6 {
        "6"
    } else if d == 7 {
        "7"
    } else if d == 8 {
        "8"
    } else {
        "9"
    }
}

/// Renders `v` in decimal, zero-padded to `width` digits.
pub fn dec_string(v: u64, width: usize) -> (r: String)
    ensures
        r@ == dec_seq(v as int, width as nat),
    decreases width,
{
    if width == 0 {
        let s = String::new();
        assert(s@ =~= dec_seq(v as int, 0));
        s
    } else {
        let mut s = dec_string(v / 10, width - 1);
        let d = dec_digit_str(v % 10);
        s.append(d);
        assert(s@ =~= dec_seq(v as int, width as nat));
        s
    }
}

/// Reads `width` decimal digits of `s` starting at `from`; `None` if any
/// character there is not a digit.
pub fn read_dec(s: &str, from: usize, width: usize) -> (r: Option<u64>)
    requires
        from + width <= s@.len(),
        from + width <= usize::MAX,
        width <= 14,
    ensures
        match r {
            Some(v) => {
                &&& forall|j: int| from <= j < from + width ==> is_digit_char(#[trigger] s@[j])
                &&& v as int == dec_value(s@.subrange(from as int, (from + width) as int))
                &&& v < pow(10, width as nat)
            },
            None => exists|j: int| from <= j < from + width && !is_digit_char(#[trigger] s@[j]),
        },
{
    let mut i: usize = 0;
    let mut acc: u64 = 0;
    proof {
        assert(s@.subrange(from as int, from as int) =~= Seq::<char>::empty());
        vstd::arithmetic::power::lemma_pow_positive(10, 0);
    }
    while i < width
        invariant
            0 <= i <= width,
            width <= 14,
            from + width <= s@.len(),
            from + width <= usize::MAX,
            forall|j: int| from <= j < from + i ==> is_digit_char(#[trigger] s@[j]),
            acc as int == dec_value(s@.subrange(from as int, (from + i) as int)),
            acc < pow(10, i as nat),
        decreases width - i,
    {
        let c = s.get_char(from + i);
        if !crate::chars::exec_is_digit(c) {
            return None;
        }
        let d: u32 = c as u32 - 48;
        proof {
            reveal(vstd::arithmetic::power::pow);
            assert(pow(10, (i + 1) as nat) == 10 * pow(10, i as nat));
            assert(pow(10, 14nat) == 100_000_000_000_000) by {
                reveal_with_fuel(vstd::arithmetic::power::pow, 15);
            }
            vstd::arithmetic::power::lemma_pow_increases(10, (i + 1) as nat, 14nat);
            assert(10 * acc + d < 10 * pow(10, i as nat)) by (nonlinear_arith)
                requires acc < pow(10, i as nat) && d < 10 && acc >= 0;
        }
        acc = 10 * acc + (d as u64);
        i = i + 1;
        proof {
            let sub = s@.subrange(from as int, (from + i) as int);
            assert(sub.drop_last() =~= s@.subrange(from as int, (from + i - 1) as int));
            assert(sub.last() == s@[from + i - 1]);
        }
    }
    proof {
        assert(s@.subrange(from as int, (from + i) as int) =~= s@.subrange(
            from as int,
            (from + width) as int,
        ));
    }
    Some(acc)
}

} // verus!
