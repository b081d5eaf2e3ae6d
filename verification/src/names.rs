//! Random sign-up names and passwords: a name drawn from a fixed table with
//! a three-digit suffix, and a password of the first name plus six digits.

use vstd::prelude::*;
use crate::chars::is_digit_char;
use crate::digits::{dec_string, lemma_dec_seq_wf};

verus! {

/// Relies on rand::thread_rng and rand::Rng::gen_range, which is documented
/// to return a value of the given half-open range and to panic only when
/// the range is empty.
#[verifier::external_body]
fn random_in_range(lo: u64, hi: u64) -> (r: u64)
    requires
        lo < hi,
    ensures
        lo <= r < hi,
{
    rand::Rng::gen_range(&mut rand::thread_rng(), lo..hi)
}

/// The shape of every generated name: a non-empty base followed by exactly
/// three decimal digits.
pub open spec fn generated_name_wf(s: Seq<char>) -> bool {
    s.len() >= 4 && forall|i: int| s.len() - 3 <= i < s.len() ==> is_digit_char(#[trigger] s[i])
}

fn first_names() -> (r: Vec<&'static str>)
    ensures
        r@.len() >= 1,
        forall|i: int| 0 <= i < r@.len() ==> (#[trigger] r@[i])@.len() >= 1,
{
    proof {
        reveal_strlit("James");
        reveal_strlit("Mary");
        reveal_strlit("Robert");
        reveal_strlit("Linda");
        reveal_strlit("Michael");
        reveal_strlit("Susan");
        reveal_strlit("David");
        reveal_strlit("Karen");
    }
    let mut v: Vec<&'static str> = Vec::new();
    v.push("James");
    v.push("Mary");
    v.push("Robert");
    v.push("Linda");
    v.push("Michael");
    v.push("Susan");
    v.push("David");
    v.push("Karen");
    v
}

fn last_names() -> (r: Vec<&'static str>)
    ensures
        r@.len() >= 1,
        forall|i: int| 0 <= i < r@.len() ==> (#[trigger] r@[i])@.len() >= 1,
{
    proof {
        reveal_strlit("Smith");
        reveal_strlit("Johnson");
        reveal_strlit("Williams");
        reveal_strlit("Brown");
        reveal_strlit("Jones");
        reveal_strlit("Garcia");
        reveal_strlit("Miller");
        reveal_strlit("Davis");
    }
    let mut v: Vec<&'static str> = Vec::new();
    v.push("Smith");
    v.push("Johnson");
    v.push("Williams");
    v.push("Brown");
    v.push("Jones");
    v.push("Garcia");
    v.push("Miller");
    v.push("Davis");
    v
}

pub struct NameGenerator {}

impl NameGenerator {
    pub fn new() -> (r: NameGenerator) {
        NameGenerator {  }
    }

    /// One random entry of the table with a random three-digit suffix.
    fn generate_random_name(&mut self, names: &Vec<&'static str>) -> (r: String)
        requires
            names@.len() >= 1,
            forall|i: int| 0 <= i < names@.len() ==> (#[trigger] names@[i])@.len() >= 1,
        ensures
            generated_name_wf(r@),
    {
        let idx = random_in_range(0, names.len() as u64);
        let base = names[idx as usize];
        let number = random_in_range(100, 999);
        let mut s = String::from_str(base);
        let suffix = dec_string(number, 3);
        s.append(suffix.as_str());
        proof {
            lemma_dec_seq_wf(number as int, 3);
        }
        s
    }

    /// A fresh first and last name, independently drawn.
    pub fn generate_name(&mut self) -> (r: (String, String))
        ensures
            generated_name_wf(r.0@),
            generated_name_wf(r.1@),
    {
        let firsts = first_names();
        let lasts = last_names();
        let first_name = self.generate_random_name(&firsts);
        let last_name = self.generate_random_name(&lasts);
        (first_name, last_name)
    }

    /// The given first name followed by six random digits.
    pub fn generate_password(&mut self, first_name: &str) -> (r: String)
        ensures
            r@.len() == first_name@.len() + 6,
            r@.subrange(0, first_name@.len() as int) == first_name@,
            forall|i: int|
                first_name@.len() <= i < r@.len() ==> is_digit_char(#[trigger] r@[i]),
    {
        let number = random_in_range(100_000, 999_999);
        let mut s = String::from_str(first_name);
        let suffix = dec_string(number, 6);
        s.append(suffix.as_str());
        proof {
            lemma_dec_seq_wf(number as int, 6);
            assert(s@.subrange(0, first_name@.len() as int) =~= first_name@);
        }
        s
    }
}

} // verus!
