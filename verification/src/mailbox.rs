//! Retrieving a one-time verification code from a disposable mailbox.
//!
//! The mailbox itself is an HTTP service; this module holds what can be
//! decided locally: the session addressing, the request URLs, the reading
//! of the service's replies, the extraction of the six-digit code from a
//! message body, and the bounded retry and cleanup policies. The caller
//! performs the requests and the sleeps and reports each outcome back.

use vstd::prelude::*;
use crate::chars::{is_digit_char, is_ascii_letter, lower_seq};
use crate::chars::clone_string;

verus! {

/// Addressing of one disposable mailbox session.
pub struct TempMailConfig {
    pub first_id: String,
    pub second_id: String,
    pub password: String,
    pub user_email: String,
    pub temp_mail_username: String,
    pub temp_mail_extension: String,
    pub temp_mail_epin: String,
}

impl TempMailConfig {
    /// The session built from a generated name pair: identifiers and the
    /// address are the lower-cased names, the mailbox fields are taken as
    /// given, and no pin is set.
    pub fn from_parts(
        first_name: &str,
        last_name: &str,
        temp_mail_username: String,
        temp_mail_extension: String,
    ) -> (r: TempMailConfig)
        ensures
            r.first_id@ == lower_seq(first_name@),
            r.second_id@ == lower_seq(last_name@),
            r.password@ =~= Seq::<char>::empty(),
            r.user_email@ == lower_seq(first_name@) + "@"@ + temp_mail_extension@,
            r.temp_mail_username == temp_mail_username,
            r.temp_mail_extension == temp_mail_extension,
            r.temp_mail_epin@ =~= Seq::<char>::empty(),
    {
        let first_id = crate::chars::ascii_lowercase(first_name);
        let second_id = crate::chars::ascii_lowercase(last_name);
        let mut user_email = clone_string(&first_id);
        user_email.append("@");
        user_email.append(temp_mail_extension.as_str());
        TempMailConfig {
            first_id,
            second_id,
            password: String::new(),
            user_email,
            temp_mail_username,
            temp_mail_extension,
            temp_mail_epin: String::new(),
        }
    }
}

impl Default for TempMailConfig {
    /// The fixed default mailbox session.
    fn default() -> (r: TempMailConfig)
        ensures
            r.first_id@ =~= Seq::<char>::empty(),
            r.second_id@ =~= Seq::<char>::empty(),
            r.password@ =~= Seq::<char>::empty(),
            r.user_email@ =~= Seq::<char>::empty(),
            r.temp_mail_username@ == "mobai-free-cursor"@,
            r.temp_mail_extension@ == "@mailto.plus"@,
            r.temp_mail_epin@ =~= Seq::<char>::empty(),
    {
        TempMailConfig {
            first_id: String::new(),
            second_id: String::new(),
            password: String::new(),
            user_email: String::new(),
            temp_mail_username: String::from_str("mobai-free-cursor"),
            temp_mail_extension: String::from_str("@mailto.plus"),
            temp_mail_epin: String::new(),
        }
    }
}

/// The full address of the session: username followed by the extension.
pub fn mail_address(config: &TempMailConfig) -> (r: String)
    ensures
        r@ == config.temp_mail_username@ + config.temp_mail_extension@,
{
    let mut s = clone_string(&config.temp_mail_username);
    s.append(config.temp_mail_extension.as_str());
    s
}

/// The URL that lists the mailbox's messages.
pub fn mail_list_url(config: &TempMailConfig) -> (r: String)
    ensures
        r@ == "https://tempmail.plus/api/mails?email="@ + config.temp_mail_username@
            + config.temp_mail_extension@ + "&limit=20&epin="@ + config.temp_mail_epin@,
{
    let mut s = String::from_str("https://tempmail.plus/api/mails?email=");
    s.append(config.temp_mail_username.as_str());
    s.append(config.temp_mail_extension.as_str());
    s.append("&limit=20&epin=");
    s.append(config.temp_mail_epin.as_str());
    s
}

/// The URL that fetches one message by id.
pub fn mail_detail_url(config: &TempMailConfig, message_id: &str) -> (r: String)
    ensures
        r@ == "https://tempmail.plus/api/mails/"@ + message_id@ + "?email="@
            + config.temp_mail_username@ + config.temp_mail_extension@ + "&epin="@
            + config.temp_mail_epin@,
{
    let mut s = String::from_str("https://tempmail.plus/api/mails/");
    s.append(message_id);
    s.append("?email=");
    s.append(config.temp_mail_username.as_str());
    s.append(config.temp_mail_extension.as_str());
    s.append("&epin=");
    s.append(config.temp_mail_epin.as_str());
    s
}

/// The endpoint deletions are sent to.
pub fn mail_delete_url() -> (r: String)
    ensures
        r@ == "https://tempmail.plus/api/mails/"@,
{
    String::from_str("https://tempmail.plus/api/mails/")
}

/// Why one polling attempt, or the whole poll, failed.
#[derive(Clone, Copy, PartialEq, Eq, Structural, Debug)]
pub enum MailError {
    /// The list request did not report success.
    ListFailed,
    /// The list reported success but held no message.
    NoMessage,
    /// The detail request did not report success.
    DetailFailed,
    /// The message body held no standalone six-digit code.
    NoCode,
    /// Every attempt of the retry budget failed; carries the budget.
    ExhaustedRetries(u32),
}

/// Reads the list reply: the first message id, if the service reported
/// success and named one.
pub fn interpret_mail_list(result_ok: bool, first_id: Option<String>) -> (r: Result<
    String,
    MailError,
>)
    ensures
        match r {
            Ok(id) => result_ok && (first_id matches Some(f) && id@ == f@),
            Err(e) => (e == MailError::ListFailed <==> !result_ok) && (e == MailError::NoMessage
                <==> result_ok && first_id is None) && (e == MailError::ListFailed || e
                == MailError::NoMessage),
        },
{
    if !result_ok {
        return Err(MailError::ListFailed);
    }
    match first_id {
        Some(id) => Ok(id),
        None => Err(MailError::NoMessage),
    }
}

/// A character may sit directly before a code only if it could not be part
/// of an address, a word, or a longer digit run: not an ASCII letter, not a
/// digit, and none of `_`, `@`, `.`.
pub open spec fn blocks_left(c: char) -> bool {
    is_ascii_letter(c) || is_digit_char(c) || c == '_' || c == '@' || c == '.'
}

/// A character may sit directly after a code only if it does not extend a
/// word or a digit run: not an ASCII letter, not a digit, not `_`.
pub open spec fn blocks_right(c: char) -> bool {
    is_ascii_letter(c) || is_digit_char(c) || c == '_'
}

/// Whether a standalone six-digit code starts at position `i` of `s`.
pub open spec fn code_at(s: Seq<char>, i: int) -> bool {
    &&& 0 <= i
    &&& i + 6 <= s.len()
    &&& forall|j: int| i <= j < i + 6 ==> is_digit_char(#[trigger] s[j])
    &&& (i == 0 || !blocks_left(s[i - 1]))
    &&& (i + 6 == s.len() || !blocks_right(s[i + 6]))
}

fn exec_blocks_left(c: char) -> (r: bool)
    ensures
        r == blocks_left(c),
{
    let u = c as u32;
    (65 <= u && u <= 90) || (97 <= u && u <= 122) || (48 <= u && u <= 57) || c == '_' || c == '@'
        || c == '.'
}

fn exec_blocks_right(c: char) -> (r: bool)
    ensures
        r == blocks_right(c),
{
    let u = c as u32;
    (65 <= u && u <= 90) || (97 <= u && u <= 122) || (48 <= u && u <= 57) || c == '_'
}

/// Whether a standalone six-digit code starts at position `i`.
fn exec_code_at(text: &str, n: usize, i: usize) -> (r: bool)
    requires
        n == text@.len(),
        i + 6 <= n,
    ensures
        r == code_at(text@, i as int),
{
    let mut j: usize = 0;
    while j < 6
        invariant
            0 <= j <= 6,
            n == text@.len(),
            i + 6 <= n,
            forall|t: int| i <= t < i + j ==> is_digit_char(#[trigger] text@[t]),
        decreases 6 - j,
    {
        if !crate::chars::exec_is_digit(text.get_char(i + j)) {
            return false;
        }
        j = j + 1;
    }
    if i > 0 && exec_blocks_left(text.get_char(i - 1)) {
        return false;
    }
    if i + 6 < n && exec_blocks_right(text.get_char(i + 6)) {
        return false;
    }
    true
}

/// The first standalone six-digit run of `text`, if any: six digits not
/// directly preceded by a letter, digit, `_`, `@` or `.`, and not directly
/// followed by a letter, digit or `_`. Digits embedded in an address such
/// as `user123456@example.com` never match.
pub fn extract_code(text: &str) -> (r: Option<String>)
    ensures
        match r {
            Some(code) => exists|i: int|
                #[trigger] code_at(text@, i) && code@ == text@.subrange(i, i + 6) && forall|j: int|
                    0 <= j < i ==> !code_at(text@, j),
            None => forall|i: int| !code_at(text@, i),
        },
{
    let n = text.unicode_len();
    if n < 6 {
        return None;
    }
    let mut i: usize = 0;
    while i <= n - 6
        invariant
            6 <= n,
            0 <= i,
            i + 6 <= n + 1,
            n == text@.len(),
            forall|j: int| 0 <= j < i ==> !code_at(text@, j),
        decreases n - i,
    {
        if exec_code_at(text, n, i) {
            let code = text.substring_char(i, i + 6).to_owned();
            proof {
                assert(code_at(text@, i as int));
            }
            return Some(code);
        }
        i = i + 1;
    }
    proof {
        assert forall|j: int| !code_at(text@, j) by {
            if 0 <= j && j + 6 <= text@.len() {
                assert(j < i);
            }
        }
    }
    None
}

/// Reads the detail reply and extracts the code: the body counts as empty
/// when the service named none, and a reply without a standalone six-digit
/// run is an attempt failure.
pub fn code_from_detail(result_ok: bool, text: Option<String>) -> (r: Result<String, MailError>)
    ensures
        match r {
            Ok(code) => {
                &&& result_ok
                &&& match text {
                    Some(t) => exists|i: int|
                        #[trigger] code_at(t@, i) && code@ == t@.subrange(i, i + 6) && forall|
                            j: int,
                        | 0 <= j < i ==> !code_at(t@, j),
                    None => false,
                }
            },
            Err(e) => {
                &&& (e == MailError::DetailFailed <==> !result_ok)
                &&& (result_ok ==> e == MailError::NoCode && (text matches Some(t) ==> forall|
                    i: int,
                |
                    !code_at(t@, i)))
            },
        },
{
    if !result_ok {
        return Err(MailError::DetailFailed);
    }
    match text {
        Some(t) => match extract_code(t.as_str()) {
            Some(code) => Ok(code),
            None => Err(MailError::NoCode),
        },
        None => Err(MailError::NoCode),
    }
}

/// What the poller does after one failed attempt.
#[derive(Clone, Copy, PartialEq, Eq, Structural, Debug)]
pub enum PollDecision {
    /// Retries remain: sleep one interval, then try again.
    SleepThenRetry,
    /// The budget is exhausted; the poll fails without a further sleep.
    GiveUp,
}

/// The bounded retry schedule of one poll: attempts are strictly
/// sequential, a failed attempt is followed by a sleep exactly when a
/// retry remains, and exhausting the budget ends the poll.
pub struct CodePoller {
    pub max_retries: u32,
    pub attempts_made: u32,
}

impl CodePoller {
    pub open spec fn inv(&self) -> bool {
        self.attempts_made <= self.max_retries
    }

    pub fn new(max_retries: u32) -> (r: CodePoller)
        ensures
            r.max_retries == max_retries,
            r.attempts_made == 0,
            r.inv(),
    {
        CodePoller { max_retries, attempts_made: 0 }
    }

    /// Whether another attempt may start.
    pub fn can_attempt(&self) -> (r: bool)
        ensures
            r == (self.attempts_made < self.max_retries),
    {
        self.attempts_made < self.max_retries
    }

    /// One attempt just failed. Sleep and retry exactly when attempts
    /// remain; otherwise the poll ends.
    pub fn on_attempt_failed(&mut self) -> (d: PollDecision)
        requires
            old(self).inv(),
            old(self).attempts_made < old(self).max_retries,
        ensures
            final(self).inv(),
            final(self).max_retries == old(self).max_retries,
            final(self).attempts_made == old(self).attempts_made + 1,
            d == PollDecision::SleepThenRetry <==> final(self).attempts_made
                < final(self).max_retries,
            d == PollDecision::GiveUp <==> final(self).attempts_made == final(self).max_retries,
    {
        self.attempts_made = self.attempts_made + 1;
        if self.attempts_made < self.max_retries {
            PollDecision::SleepThenRetry
        } else {
            PollDecision::GiveUp
        }
    }

    /// The terminal error after the budget is exhausted, naming the number
    /// of attempts made.
    pub fn exhausted_error(&self) -> (r: MailError)
        requires
            self.attempts_made == self.max_retries,
        ensures
            r == MailError::ExhaustedRetries(self.max_retries),
    {
        MailError::ExhaustedRetries(self.max_retries)
    }
}

/// How many delete requests cleanup may send for one message.
pub const CLEANUP_MAX_ATTEMPTS: u32 = 5;

/// How long cleanup waits between two delete requests, in milliseconds.
pub const CLEANUP_RETRY_DELAY_MS: u64 = 500;

/// What cleanup does after one delete request was answered.
#[derive(Clone, Copy, PartialEq, Eq, Structural, Debug)]
pub enum CleanupDecision {
    /// The service confirmed the deletion; cleanup is finished.
    Done,
    /// The deletion was not confirmed and requests remain: wait the delay,
    /// then send again.
    RetryAfterDelay,
    /// The deletion was not confirmed and the budget is spent. The failure
    /// is reported but never invalidates a code already extracted.
    Failed,
}

/// The bounded retry schedule of deleting one read message.
pub struct CleanupTracker {
    pub attempts_made: u32,
}

impl CleanupTracker {
    pub open spec fn inv(&self) -> bool {
        self.attempts_made <= CLEANUP_MAX_ATTEMPTS
    }

    pub fn new() -> (r: CleanupTracker)
        ensures
            r.attempts_made == 0,
            r.inv(),
    {
        CleanupTracker { attempts_made: 0 }
    }

    /// One delete request was answered; `confirmed` says whether the
    /// service reported success.
    pub fn on_response(&mut self, confirmed: bool) -> (d: CleanupDecision)
        requires
            old(self).inv(),
            old(self).attempts_made < CLEANUP_MAX_ATTEMPTS,
        ensures
            final(self).inv(),
            final(self).attempts_made == old(self).attempts_made + 1,
            confirmed ==> d == CleanupDecision::Done,
            !confirmed && final(self).attempts_made < CLEANUP_MAX_ATTEMPTS ==> d
                == CleanupDecision::RetryAfterDelay,
            !confirmed && final(self).attempts_made == CLEANUP_MAX_ATTEMPTS ==> d
                == CleanupDecision::Failed,
    {
        self.attempts_made = self.attempts_made + 1;
        if confirmed {
            CleanupDecision::Done
        } else if self.attempts_made < CLEANUP_MAX_ATTEMPTS {
            CleanupDecision::RetryAfterDelay
        } else {
            CleanupDecision::Failed
        }
    }
}

} // verus!
