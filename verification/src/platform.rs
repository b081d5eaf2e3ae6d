//! Reading the answers of the OS-specific collaborator commands, and the
//! commands themselves: the privilege check and process termination are
//! external calls, but what to run and what their output means is decided
//! here.

use vstd::prelude::*;
use crate::chars::{is_ascii_whitespace_char, lower_seq, exec_lower_char, eq_ignore_ascii_case_seq};

verus! {

/// The operating system the program runs on.
#[derive(Clone, Copy, PartialEq, Eq, Structural, Debug)]
pub enum OsKind {
    Windows,
    Macos,
    Linux,
    Other,
}

/// How many leading whitespace characters `s` has.
pub open spec fn ws_prefix_len(s: Seq<char>) -> int
    decreases s.len(),
{
    if s.len() > 0 && is_ascii_whitespace_char(s[0]) {
        1 + ws_prefix_len(s.skip(1))
    } else {
        0
    }
}

/// How many trailing whitespace characters `s` has.
pub open spec fn ws_suffix_len(s: Seq<char>) -> int
    decreases s.len(),
{
    if s.len() > 0 && is_ascii_whitespace_char(s.last()) {
        1 + ws_suffix_len(s.drop_last())
    } else {
        0
    }
}

/// `s` with leading and trailing whitespace removed.
pub open spec fn spec_trim(s: Seq<char>) -> Seq<char> {
    if ws_prefix_len(s) == s.len() {
        Seq::empty()
    } else {
        s.subrange(ws_prefix_len(s), s.len() - ws_suffix_len(s))
    }
}

proof fn lemma_ws_prefix_len(s: Seq<char>, k: int)
    requires
        0 <= k <= s.len(),
        forall|j: int| 0 <= j < k ==> is_ascii_whitespace_char(#[trigger] s[j]),
        k == s.len() || !is_ascii_whitespace_char(s[k]),
    ensures
        ws_prefix_len(s) == k,
    decreases k,
{
    if k == 0 {
    } else {
        assert(is_ascii_whitespace_char(s[0]));
        let t = s.skip(1);
        assert forall|j: int| 0 <= j < k - 1 implies is_ascii_whitespace_char(#[trigger] t[j]) by {
            assert(t[j] == s[j + 1]);
        }
        if k - 1 < t.len() {
            assert(t[k - 1] == s[k]);
        }
        lemma_ws_prefix_len(t, k - 1);
    }
}

proof fn lemma_ws_suffix_len(s: Seq<char>, k: int)
    requires
        0 <= k <= s.len(),
        forall|j: int| s.len() - k <= j < s.len() ==> is_ascii_whitespace_char(#[trigger] s[j]),
        k == s.len() || !is_ascii_whitespace_char(s[s.len() - k - 1]),
    ensures
        ws_suffix_len(s) == k,
    decreases k,
{
    if k == 0 {
    } else {
        assert(is_ascii_whitespace_char(s.last()));
        let t = s.drop_last();
        assert forall|j: int| t.len() - (k - 1) <= j < t.len() implies is_ascii_whitespace_char(
            #[trigger] t[j],
        ) by {
            assert(t[j] == s[j]);
        }
        if k - 1 < t.len() {
            assert(t[t.len() - (k - 1) - 1] == s[s.len() - k - 1]);
        }
        lemma_ws_suffix_len(t, k - 1);
    }
}

fn exec_is_ws(c: char) -> (r: bool)
    ensures
        r == is_ascii_whitespace_char(c),
{
    c == ' ' || c == '\t' || c == '\n' || c == '\r'
}

/// `s` with leading and trailing ASCII whitespace removed.
pub fn trim_ascii(s: &str) -> (r: String)
    ensures
        r@ == spec_trim(s@),
{
    let n = s.unicode_len();
    let mut a: usize = 0;
    while a < n && exec_is_ws(s.get_char(a))
        invariant
            0 <= a <= n,
            n == s@.len(),
            forall|j: int| 0 <= j < a ==> is_ascii_whitespace_char(#[trigger] s@[j]),
        decreases n - a,
    {
        a = a + 1;
    }
    proof {
        lemma_ws_prefix_len(s@, a as int);
    }
    if a == n {
        let r = String::new();
        proof {
            assert(r@ =~= spec_trim(s@));
        }
        return r;
    }
    let mut b: usize = n;
    while b > a && exec_is_ws(s.get_char(b - 1))
        invariant
            a <= b <= n,
            n == s@.len(),
            a < n,
            !is_ascii_whitespace_char(s@[a as int]),
            forall|j: int| b <= j < n ==> is_ascii_whitespace_char(#[trigger] s@[j]),
        decreases b,
    {
        b = b - 1;
    }
    proof {
        if b == a {
            assert(!is_ascii_whitespace_char(s@[s@.len() - (n - a) - 1 + 1]));
        }
        assert(b > a);
        lemma_ws_suffix_len(s@, (n - b) as int);
    }
    let r = s.substring_char(a, b).to_owned();
    proof {
        assert(r@ =~= spec_trim(s@));
    }
    r
}

/// Whether two strings agree up to ASCII case.
pub fn eq_ignore_ascii_case(a: &str, b: &str) -> (r: bool)
    ensures
        r == eq_ignore_ascii_case_seq(a@, b@),
{
    let n = a.unicode_len();
    let m = b.unicode_len();
    if n != m {
        proof {
            assert(lower_seq(a@).len() != lower_seq(b@).len());
        }
        return false;
    }
    let mut i: usize = 0;
    while i < n
        invariant
            0 <= i <= n,
            n == a@.len(),
            n == b@.len(),
            forall|j: int|
                0 <= j < i ==> crate::chars::lower_char(#[trigger] a@[j]) == crate::chars::lower_char(
                    b@[j],
                ),
        decreases n - i,
    {
        if exec_lower_char(a.get_char(i)) != exec_lower_char(b.get_char(i)) {
            proof {
                assert(lower_seq(a@)[i as int] != lower_seq(b@)[i as int]);
            }
            return false;
        }
        i = i + 1;
    }
    proof {
        assert(lower_seq(a@) =~= lower_seq(b@));
    }
    true
}

/// What the privilege-check command's output means for each system: on
/// Windows the PowerShell group query prints `True` (in some casing) for an
/// elevated process; elsewhere `id -u` prints `0` for root. Unsupported
/// systems never count as elevated.
pub open spec fn spec_is_admin_output(os: OsKind, out: Seq<char>) -> bool {
    match os {
        OsKind::Windows => eq_ignore_ascii_case_seq(spec_trim(out), "true"@),
        OsKind::Macos | OsKind::Linux => spec_trim(out) == "0"@,
        OsKind::Other => false,
    }
}

/// Reads the output of the privilege-check command.
pub fn interpret_admin_check(os: OsKind, output: &str) -> (r: bool)
    ensures
        r == spec_is_admin_output(os, output@),
{
    match os {
        OsKind::Windows => {
            let trimmed = trim_ascii(output);
            eq_ignore_ascii_case(trimmed.as_str(), "true")
        },
        OsKind::Macos | OsKind::Linux => {
            let trimmed = trim_ascii(output);
            let n = trimmed.as_str().unicode_len();
            if n != 1 {
                proof {
                    reveal_strlit("0");
                }
                return false;
            }
            let c = trimmed.as_str().get_char(0);
            proof {
                reveal_strlit("0");
                if c == '0' {
                    assert(trimmed@ =~= "0"@);
                }
            }
            c == '0'
        },
        OsKind::Other => false,
    }
}

/// The process-termination command for each system; unsupported systems
/// have none.
pub fn terminate_command(os: OsKind) -> (r: Option<(&'static str, Vec<&'static str>)>)
    ensures
        match os {
            OsKind::Windows => r matches Some(c) && c.0@ == "taskkill"@ && c.1@.len() == 3 && (
            c.1@[0])@ == "/F"@ && (c.1@[1])@ == "/IM"@ && (c.1@[2])@ == "Cursor.exe"@,
            OsKind::Macos => r matches Some(c) && c.0@ == "pkill"@ && c.1@.len() == 2 && (
            c.1@[0])@ == "-9"@ && (c.1@[1])@ == "Cursor"@,
            OsKind::Linux => r matches Some(c) && c.0@ == "pkill"@ && c.1@.len() == 2 && (
            c.1@[0])@ == "-9"@ && (c.1@[1])@ == "cursor"@,
            OsKind::Other => r is None,
        },
{
    match os {
        OsKind::Windows => {
            let mut args: Vec<&'static str> = Vec::new();
            args.push("/F");
            args.push("/IM");
            args.push("Cursor.exe");
            Some(("taskkill", args))
        },
        OsKind::Macos => {
            let mut args: Vec<&'static str> = Vec::new();
            args.push("-9");
            args.push("Cursor");
            Some(("pkill", args))
        },
        OsKind::Linux => {
            let mut args: Vec<&'static str> = Vec::new();
            args.push("-9");
            args.push("cursor");
            Some(("pkill", args))
        },
        OsKind::Other => None,
    }
}

} // verus!
