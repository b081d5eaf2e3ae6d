use cursor_reset::mailbox::{
    code_from_detail, extract_code, interpret_mail_list, mail_address, mail_delete_url,
    mail_detail_url, mail_list_url, CleanupDecision, CleanupTracker, CodePoller, MailError,
    PollDecision, TempMailConfig,
};

#[test]
fn six_digit_code_is_extracted() {
    assert_eq!(extract_code("code: 123456"), Some("123456".to_string()));
    assert_eq!(extract_code("123456"), Some("123456".to_string()));
    assert_eq!(
        extract_code("your code is 654321, use it soon"),
        Some("654321".to_string())
    );
}

#[test]
fn digits_inside_an_address_never_match() {
    assert_eq!(extract_code("user123456@example.com"), None);
    assert_eq!(extract_code("mail to user123456"), None);
    assert_eq!(extract_code("v123456w"), None);
    assert_eq!(extract_code("a.123456"), None);
    assert_eq!(extract_code("@123456"), None);
}

#[test]
fn longer_digit_runs_never_match() {
    assert_eq!(extract_code("1234567"), None);
    assert_eq!(extract_code("12345"), None);
    assert_eq!(extract_code("0123456789"), None);
}

#[test]
fn the_first_code_wins() {
    assert_eq!(
        extract_code("first 111111 then 222222"),
        Some("111111".to_string())
    );
}

#[test]
fn list_reply_reading_is_exact() {
    assert_eq!(
        interpret_mail_list(false, Some("m1".to_string())),
        Err(MailError::ListFailed)
    );
    assert_eq!(interpret_mail_list(true, None), Err(MailError::NoMessage));
    assert_eq!(
        interpret_mail_list(true, Some("m1".to_string())),
        Ok("m1".to_string())
    );
}

#[test]
fn detail_reply_reading_is_exact() {
    assert_eq!(
        code_from_detail(false, Some("code: 123456".to_string())),
        Err(MailError::DetailFailed)
    );
    assert_eq!(
        code_from_detail(true, Some("no digits here".to_string())),
        Err(MailError::NoCode)
    );
    assert_eq!(code_from_detail(true, None), Err(MailError::NoCode));
    assert_eq!(
        code_from_detail(true, Some("code: 123456".to_string())),
        Ok("123456".to_string())
    );
}

#[test]
fn code_found_on_second_of_three_attempts() {
    // The mailbox answers nothing on the first attempt and a body with
    // "code: 123456" on the second; the poll returns the code after one
    // sleep and exactly one deletion is issued.
    let mut poller = CodePoller::new(3);
    let mut sleeps = 0;
    let mut deletions = 0;
    let mut found: Option<String> = None;

    let replies: [(bool, Option<&str>); 2] = [(true, None), (true, Some("code: 123456"))];
    for (list_ok, body) in replies {
        assert!(poller.can_attempt());
        let attempt = match interpret_mail_list(list_ok, body.map(|_| "m1".to_string())) {
            Ok(_id) => code_from_detail(true, body.map(|b| b.to_string())),
            Err(e) => Err(e),
        };
        match attempt {
            Ok(code) => {
                let mut cleanup = CleanupTracker::new();
                deletions += 1;
                assert_eq!(cleanup.on_response(true), CleanupDecision::Done);
                found = Some(code);
                break;
            }
            Err(_) => match poller.on_attempt_failed() {
                PollDecision::SleepThenRetry => sleeps += 1,
                PollDecision::GiveUp => break,
            },
        }
    }

    assert_eq!(found, Some("123456".to_string()));
    assert_eq!(sleeps, 1);
    assert_eq!(deletions, 1);
}

#[test]
fn exhausted_after_three_failed_attempts() {
    // No reply ever holds a code: the poll sleeps between attempts one and
    // two and between two and three, but not after the last, and ends with
    // an error naming the three attempts.
    let mut poller = CodePoller::new(3);
    let mut sleeps = 0;
    let mut decisions = Vec::new();
    while poller.can_attempt() {
        let attempt = code_from_detail(true, Some("nothing to see".to_string()));
        assert_eq!(attempt, Err(MailError::NoCode));
        let d = poller.on_attempt_failed();
        if d == PollDecision::SleepThenRetry {
            sleeps += 1;
        }
        decisions.push(d);
    }
    assert_eq!(
        decisions,
        vec![
            PollDecision::SleepThenRetry,
            PollDecision::SleepThenRetry,
            PollDecision::GiveUp
        ]
    );
    assert_eq!(sleeps, 2);
    assert_eq!(poller.exhausted_error(), MailError::ExhaustedRetries(3));
}

#[test]
fn cleanup_gives_up_after_five_denials() {
    let mut cleanup = CleanupTracker::new();
    for attempt in 1..=5 {
        let d = cleanup.on_response(false);
        if attempt < 5 {
            assert_eq!(d, CleanupDecision::RetryAfterDelay);
        } else {
            assert_eq!(d, CleanupDecision::Failed);
        }
    }
}

#[test]
fn cleanup_stops_at_the_first_confirmation() {
    let mut cleanup = CleanupTracker::new();
    assert_eq!(cleanup.on_response(false), CleanupDecision::RetryAfterDelay);
    assert_eq!(cleanup.on_response(true), CleanupDecision::Done);
}

#[test]
fn request_urls_are_exact() {
    let config = TempMailConfig::default();
    assert_eq!(config.temp_mail_username, "mobai-free-cursor");
    assert_eq!(config.temp_mail_extension, "@mailto.plus");
    assert_eq!(config.temp_mail_epin, "");
    assert_eq!(
        mail_list_url(&config),
        "https://tempmail.plus/api/mails?email=mobai-free-cursor@mailto.plus&limit=20&epin="
    );
    assert_eq!(
        mail_detail_url(&config, "m42"),
        "https://tempmail.plus/api/mails/m42?email=mobai-free-cursor@mailto.plus&epin="
    );
    assert_eq!(mail_delete_url(), "https://tempmail.plus/api/mails/");
    assert_eq!(mail_address(&config), "mobai-free-cursor@mailto.plus");
}

#[test]
fn session_from_generated_names() {
    let config = TempMailConfig::from_parts(
        "Alice742",
        "Brown123",
        "box".to_string(),
        "@mailto.plus".to_string(),
    );
    assert_eq!(config.first_id, "alice742");
    assert_eq!(config.second_id, "brown123");
    // The extension already carries its own separator, so the address the
    // session records gets a second one.
    assert_eq!(config.user_email, "alice742@@mailto.plus");
    assert_eq!(config.temp_mail_username, "box");
    assert_eq!(config.temp_mail_epin, "");
}
