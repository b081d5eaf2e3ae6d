//! ANSI escape wrapping for terminal colors.

use vstd::prelude::*;

verus! {

/// Wraps `text` in the given ANSI escape prefix and the reset suffix.
fn wrap(prefix: &str, text: &str) -> (r: String)
    ensures
        r@ == prefix@ + text@ + "\u{1b}[0m"@,
{
    let mut s = String::new();
    s.append(prefix);
    s.append(text);
    s.append("\u{1b}[0m");
    s
}

pub fn green(text: &str) -> (r: String)
    ensures
        r@ == "\u{1b}[32m"@ + text@ + "\u{1b}[0m"@,
{
    wrap("\u{1b}[32m", text)
}

pub fn red(text: &str) -> (r: String)
    ensures
        r@ == "\u{1b}[31m"@ + text@ + "\u{1b}[0m"@,
{
    wrap("\u{1b}[31m", text)
}

pub fn yellow(text: &str) -> (r: String)
    ensures
        r@ == "\u{1b}[33m"@ + text@ + "\u{1b}[0m"@,
{
    wrap("\u{1b}[33m", text)
}

pub fn blue(text: &str) -> (r: String)
    ensures
        r@ == "\u{1b}[34m"@ + text@ + "\u{1b}[0m"@,
{
    wrap("\u{1b}[34m", text)
}

} // verus!
