use disfork::model::DeviceCode;
use disfork::poller::ClockStep;
use disfork::poller::DevicePoller;
use disfork::poller::PollCode;
use disfork::poller::PollOutcome;
use disfork::poller::TokenReply;
use disfork::poller::classify_code;

fn token_reply(token: Option<&str>, error: Option<&str>, description: Option<&str>) -> TokenReply {
    TokenReply {
        access_token: token.map(|s| s.to_string()),
        error: error.map(|s| s.to_string()),
        error_description: description.map(|s| s.to_string()),
    }
}

#[test]
fn pending_then_slow_down_then_token() {
    // Replies of authorization_pending, slow_down and a token, with an
    // initial interval of 5 seconds: the poller waits 5, then 10 seconds,
    // and succeeds on the third exchange.
    let mut p = DevicePoller::new(5, 900);
    let mut elapsed: u64 = 0;
    let mut exchanges = 0;
    let mut waits: Vec<u64> = Vec::new();

    let replies = [
        token_reply(None, Some("authorization_pending"), None),
        token_reply(None, Some("slow_down"), None),
        token_reply(Some("tok_123"), None, None),
    ];
    let mut next_reply = replies.into_iter();
    let token = loop {
        match p.check_clock(elapsed) {
            ClockStep::TimedOut => panic!("the window has not elapsed"),
            ClockStep::Wait(s) => {
                waits.push(s);
                elapsed += s;
            },
            ClockStep::Exchange => {
                exchanges += 1;
                match p.on_reply(next_reply.next().unwrap()) {
                    None => {},
                    Some(PollOutcome::Token(t)) => break t,
                    Some(other) => panic!("unexpected outcome {:?}", other),
                }
            },
        }
    };
    assert_eq!(token, "tok_123");
    assert_eq!(exchanges, 3);
    assert_eq!(waits, vec![5, 5, 10]);
}

#[test]
fn expired_window_times_out_before_any_poll() {
    let mut p = DevicePoller::new(5, 30);
    match p.check_clock(30) {
        ClockStep::TimedOut => {},
        other => panic!("the closed window must time out, got {:?}", other),
    }
}

#[test]
fn expiry_is_rechecked_after_the_wait() {
    let mut p = DevicePoller::new(10, 8);
    let wait = match p.check_clock(0) {
        ClockStep::Wait(s) => s,
        other => panic!("an open window first waits, got {:?}", other),
    };
    assert_eq!(wait, 10);
    // The wait carried the clock past the window: no exchange is issued.
    match p.check_clock(wait) {
        ClockStep::TimedOut => {},
        other => panic!("the re-check must time out, got {:?}", other),
    }
}

fn reach_exchange(p: &mut DevicePoller, elapsed: u64) {
    match p.check_clock(elapsed) {
        ClockStep::Wait(_) => {},
        other => panic!("expected a wait, got {:?}", other),
    }
    match p.check_clock(elapsed) {
        ClockStep::Exchange => {},
        other => panic!("expected the exchange, got {:?}", other),
    }
}

#[test]
fn expired_token_code_fails() {
    let mut p = DevicePoller::new(5, 900);
    reach_exchange(&mut p, 0);
    assert_eq!(
        p.on_reply(token_reply(None, Some("expired_token"), None)),
        Some(PollOutcome::CodeExpired)
    );
}

#[test]
fn access_denied_code_fails() {
    let mut p = DevicePoller::new(5, 900);
    reach_exchange(&mut p, 0);
    assert_eq!(
        p.on_reply(token_reply(None, Some("access_denied"), None)),
        Some(PollOutcome::Denied)
    );
}

#[test]
fn unrecognized_code_fails_with_raw_code() {
    let mut p = DevicePoller::new(5, 900);
    reach_exchange(&mut p, 0);
    assert_eq!(
        p.on_reply(token_reply(None, Some("server_on_fire"), None)),
        Some(PollOutcome::Failed("server_on_fire".to_string()))
    );
}

#[test]
fn bare_description_fails_with_description() {
    let mut p = DevicePoller::new(5, 900);
    reach_exchange(&mut p, 0);
    assert_eq!(
        p.on_reply(token_reply(None, None, Some("something went wrong"))),
        Some(PollOutcome::Failed("something went wrong".to_string()))
    );
}

#[test]
fn empty_reply_keeps_polling_unchanged() {
    let mut p = DevicePoller::new(5, 900);
    reach_exchange(&mut p, 0);
    assert_eq!(p.on_reply(token_reply(None, None, None)), None);
    assert_eq!(p.current_interval(), 5);
}

#[test]
fn slow_down_lengthens_the_interval_by_five() {
    let mut p = DevicePoller::new(7, 900);
    reach_exchange(&mut p, 0);
    assert_eq!(p.on_reply(token_reply(None, Some("slow_down"), None)), None);
    assert_eq!(p.current_interval(), 12);
}

#[test]
fn poller_takes_its_settings_from_the_device_code() {
    let code = DeviceCode {
        device_code: "dev".to_string(),
        user_code: "ABCD-1234".to_string(),
        verification_uri: "https://example.invalid/device".to_string(),
        expires_in: 899,
        interval: 6,
    };
    let mut p = DevicePoller::for_device_code(&code);
    assert_eq!(p.current_interval(), 6);
    match p.check_clock(899) {
        ClockStep::TimedOut => {},
        other => panic!("the window from the device code governs, got {:?}", other),
    }
}

#[test]
fn error_codes_classify_exactly() {
    assert_eq!(
        classify_code(&"authorization_pending".to_string()),
        PollCode::AuthorizationPending
    );
    assert_eq!(classify_code(&"slow_down".to_string()), PollCode::SlowDown);
    assert_eq!(classify_code(&"expired_token".to_string()), PollCode::ExpiredToken);
    assert_eq!(classify_code(&"access_denied".to_string()), PollCode::AccessDenied);
    assert_eq!(classify_code(&"anything_else".to_string()), PollCode::Unrecognized);
    assert_eq!(classify_code(&"".to_string()), PollCode::Unrecognized);
}
