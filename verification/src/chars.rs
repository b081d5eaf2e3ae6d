//! Character classes and ASCII case folding used across the crate.

use vstd::prelude::*;

verus! {

pub open spec fn is_digit_char(c: char) -> bool {
    48 <= c as u32 <= 57
}

pub open spec fn is_ascii_letter(c: char) -> bool {
    (65 <= c as u32 <= 90) || (97 <= c as u32 <= 122)
}

pub open spec fn is_ascii_whitespace_char(c: char) -> bool {
    c == ' ' || c == '\t' || c == '\n' || c == '\r'
}

/// ASCII lower-casing of one character; anything outside `A`..`Z` is unchanged.
pub open spec fn lower_char(c: char) -> char {
    if 65 <= c as u32 <= 90 {
        ((c as u8) + 32) as char
    } else {
        c
    }
}

pub open spec fn lower_seq(s: Seq<char>) -> Seq<char> {
    s.map_values(|c: char| lower_char(c))
}

/// Whether two strings agree up to ASCII case.
pub open spec fn eq_ignore_ascii_case_seq(a: Seq<char>, b: Seq<char>) -> bool {
    lower_seq(a) == lower_seq(b)
}

pub fn exec_is_digit(c: char) -> (r: bool)
    ensures
        r == is_digit_char(c),
{
    let u = c as u32;
    48 <= u && u <= 57
}

/// Strict lexicographic order on character sequences, by code point, with
/// a proper prefix ordered before what extends it.
pub open spec fn lex_lt(a: Seq<char>, b: Seq<char>) -> bool
    decreases a.len(),
{
    if b.len() == 0 {
        false
    } else if a.len() == 0 {
        true
    } else if (a[0] as u32) < (b[0] as u32) {
        true
    } else if a[0] == b[0] {
        lex_lt(a.skip(1), b.skip(1))
    } else {
        false
    }
}

/// Appending one character each to two sequences of equal length orders
/// them by the old order first and the new characters last.
pub proof fn lemma_lex_push(x: Seq<char>, y: Seq<char>, a: char, b: char)
    requires
        x.len() == y.len(),
    ensures
        lex_lt(x.push(a), y.push(b)) == (lex_lt(x, y) || (x == y && (a as u32) < (b as u32))),
    decreases x.len(),
{
    if x.len() == 0 {
        assert(x =~= y);
        assert(x.push(a).len() == 1);
        assert(x.push(a)[0] == a && y.push(b)[0] == b);
        if (a as u32) >= (b as u32) && a == b {
            assert(x.push(a).skip(1) =~= x);
            assert(y.push(b).skip(1) =~= y);
        }
    } else {
        assert(x.push(a)[0] == x[0] && y.push(b)[0] == y[0]);
        assert(x.push(a).skip(1) =~= x.skip(1).push(a));
        assert(y.push(b).skip(1) =~= y.skip(1).push(b));
        lemma_lex_push(x.skip(1), y.skip(1), a, b);
        if x[0] == y[0] {
            assert((x == y) == (x.skip(1) == y.skip(1))) by {
                if x.skip(1) == y.skip(1) {
                    assert forall|i: int| 0 <= i < x.len() implies x[i] == y[i] by {
                        if i > 0 {
                            assert(x[i] == x.skip(1)[i - 1]);
                            assert(y[i] == y.skip(1)[i - 1]);
                        }
                    }
                    assert(x =~= y);
                }
                if x == y {
                    assert(x.skip(1) =~= y.skip(1));
                }
            }
        } else {
            assert(x != y);
        }
    }
}

/// A common prefix does not affect the order of what follows it.
pub proof fn lemma_lex_common_prefix(c: Seq<char>, a: Seq<char>, b: Seq<char>)
    ensures
        lex_lt(c + a, c + b) == lex_lt(a, b),
    decreases c.len(),
{
    if c.len() == 0 {
        assert(c + a =~= a);
        assert(c + b =~= b);
    } else {
        let ca = c + a;
        let cb = c + b;
        assert(ca[0] == c[0] && cb[0] == c[0]);
        assert(ca.len() > 0 && cb.len() > 0);
        assert(ca.skip(1) =~= c.skip(1) + a);
        assert(cb.skip(1) =~= c.skip(1) + b);
        lemma_lex_common_prefix(c.skip(1), a, b);
    }
}

/// Whatever follows two ordered sequences of equal length, the order of
/// the wholes stands.
pub proof fn lemma_lex_append(a1: Seq<char>, a2: Seq<char>, r1: Seq<char>, r2: Seq<char>)
    requires
        a1.len() == a2.len(),
        lex_lt(a1, a2),
    ensures
        lex_lt(a1 + r1, a2 + r2),
    decreases a1.len(),
{
    assert(a1.len() > 0);
    let w1 = a1 + r1;
    let w2 = a2 + r2;
    assert(w1[0] == a1[0] && w2[0] == a2[0]);
    assert(w1.len() > 0 && w2.len() > 0);
    if (a1[0] as u32) < (a2[0] as u32) {
    } else {
        assert(a1[0] == a2[0]);
        assert(lex_lt(a1.skip(1), a2.skip(1)));
        assert(w1.skip(1) =~= a1.skip(1) + r1);
        assert(w2.skip(1) =~= a2.skip(1) + r2);
        lemma_lex_append(a1.skip(1), a2.skip(1), r1, r2);
    }
}

/// A character-exact copy of a string.
pub fn clone_string(s: &String) -> (r: String)
    ensures
        r@ == s@,
{
    let mut out = String::new();
    out.append(s.as_str());
    out
}

/// Whether `pat` occurs in `s` exactly at position `from`.
pub fn matches_at(s: &str, from: usize, pat: &str) -> (r: bool)
    requires
        from + pat@.len() <= usize::MAX,
    ensures
        r == (from + pat@.len() <= s@.len() && s@.subrange(
            from as int,
            from + pat@.len(),
        ) == pat@),
{
    let n = s.unicode_len();
    let plen = pat.unicode_len();
    if from > n || plen > n - from {
        return false;
    }
    let mut j: usize = 0;
    while j < plen
        invariant
            0 <= j <= plen,
            plen == pat@.len(),
            from + plen <= s@.len(),
            from + plen <= usize::MAX,
            forall|t: int| 0 <= t < j ==> s@[from + t] == pat@[t],
        decreases plen - j,
    {
        if s.get_char(from + j) != pat.get_char(j) {
            proof {
                assert(s@.subrange(from as int, from + pat@.len())[j as int] != pat@[j as int]);
            }
            return false;
        }
        j = j + 1;
    }
    proof {
        assert(s@.subrange(from as int, from + pat@.len()) =~= pat@);
    }
    true
}

/// The lower-case counterpart of an upper-case ASCII letter, as a one-char
/// string slice.
fn lowercase_letter(c: char) -> (r: &'static str)
    requires
        65 <= c as u32 <= 90,
    ensures
        r@ =~= seq![lower_char(c)],
{
    proof {
        reveal_strlit("abcdefghijklmnopqrstuvwxyz");
    }
    let table = "abcdefghijklmnopqrstuvwxyz";
    let idx = (c as u32 - 65) as usize;
    table.substring_ascii(idx, idx + 1)
}

/// ASCII lower-casing of a whole string; characters outside `A`..`Z` are
/// kept as they are.
pub fn ascii_lowercase(s: &str) -> (r: String)
    ensures
        r@ == lower_seq(s@),
{
    let n = s.unicode_len();
    let mut out = String::new();
    let mut i: usize = 0;
    proof {
        assert(out@ =~= lower_seq(s@).subrange(0, 0));
    }
    while i < n
        invariant
            0 <= i <= n,
            n == s@.len(),
            out@ =~= lower_seq(s@).subrange(0, i as int),
        decreases n - i,
    {
        let c = s.get_char(i);
        let u = c as u32;
        if 65 <= u && u <= 90 {
            out.append(lowercase_letter(c));
        } else {
            out.append(s.substring_char(i, i + 1));
        }
        i = i + 1;
        proof {
            assert(out@ =~= lower_seq(s@).subrange(0, i as int));
        }
    }
    proof {
        assert(out@ =~= lower_seq(s@));
    }
    out
}

pub fn exec_lower_char(c: char) -> (r: char)
    ensures
        r == lower_char(c),
{
    let u = c as u32;
    if 65 <= u && u <= 90 {
        ((c as u8) + 32) as char
    } else {
        c
    }
}

} // verus!
