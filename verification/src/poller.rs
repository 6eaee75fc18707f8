//! The device-authorization poller: a bounded retry loop, modelled as a
//! state machine. The caller measures elapsed time, sleeps, and exchanges
//! the device code for a token; every decision — when to time out, when to
//! sleep and for how long, and what each exchange answer means — is made
//! here.

use vstd::prelude::*;
use crate::model::DeviceCode;

verus! {

/// The body of one token-exchange answer: either a token, or an error code
/// with an optional description, or neither (in which case polling simply
/// continues).
#[derive(Debug, Clone)]
pub struct TokenReply {
    /// The granted token, once the human has authorized the client.
    pub access_token: Option<String>,
    /// The protocol error code, when the grant is not (yet) authorized.
    pub error: Option<String>,
    /// A human-readable account of the error, when one was sent.
    pub error_description: Option<String>,
}

/// The closed set of protocol error codes the poller dispatches on.
#[derive(Debug, Clone, PartialEq, Eq, Structural)]
pub enum PollCode {
    /// The human has not decided yet; poll again at the same interval.
    AuthorizationPending,
    /// The server mandates a longer interval; add five seconds and poll again.
    SlowDown,
    /// The device code has expired; the flow must be restarted.
    ExpiredToken,
    /// The human denied the authorization.
    AccessDenied,
    /// Any other code; fatal, reported with the raw code.
    Unrecognized,
}

/// Maps a raw protocol error code to the closed dispatch set.
pub fn classify_code(error: &String) -> (c: PollCode)
    ensures
        c == PollCode::AuthorizationPending <==> error@ == "authorization_pending"@,
        c == PollCode::SlowDown <==> error@ == "slow_down"@,
        c == PollCode::ExpiredToken <==> error@ == "expired_token"@,
        c == PollCode::AccessDenied <==> error@ == "access_denied"@,
{
    proof {
        reveal_strlit("authorization_pending");
        reveal_strlit("slow_down");
        reveal_strlit("expired_token");
        reveal_strlit("access_denied");
        assert("authorization_pending"@.len() == 21);
        assert("slow_down"@.len() == 9);
        assert("expired_token"@.len() == 13);
        assert("access_denied"@.len() == 13);
        assert("expired_token"@[0] == 'e');
        assert("access_denied"@[0] == 'a');
    }
    let pending = String::from_str("authorization_pending");
    let slow = String::from_str("slow_down");
    let expired = String::from_str("expired_token");
    let denied = String::from_str("access_denied");
    if *error == pending {
        PollCode::AuthorizationPending
    } else if *error == slow {
        PollCode::SlowDown
    } else if *error == expired {
        PollCode::ExpiredToken
    } else if *error == denied {
        PollCode::AccessDenied
    } else {
        PollCode::Unrecognized
    }
}

/// Where the poller stands in its loop.
#[derive(Debug, Clone, PartialEq, Eq, Structural)]
pub enum PollPhase {
    /// About to check the clock before sleeping.
    BeforeWait,
    /// Slept; about to re-check the clock before exchanging.
    AfterWait,
    /// Clock checks passed; about to exchange the device code for a token.
    Exchange,
    /// A terminal outcome has been reached; no further poll is issued.
    Finished,
}

/// What the caller must do next after a clock check.
#[derive(Debug, Clone, PartialEq, Eq, Structural)]
pub enum ClockStep {
    /// Sleep this many whole seconds, then check the clock again.
    Wait(u64),
    /// Exchange the device code for a token and report the reply.
    Exchange,
    /// The authorization window has closed; the flow failed.
    TimedOut,
}

/// How the device-authorization flow ended.
#[derive(Debug, Clone, PartialEq, Eq)]
pub enum PollOutcome {
    /// The human authorized the client; here is the token.
    Token(String),
    /// The window given by the issuance endpoint elapsed with no decision.
    TimedOut,
    /// The server reported the device code expired.
    CodeExpired,
    /// The human denied the authorization.
    Denied,
    /// An unrecognized error code, or a bare error description; the raw
    /// text is carried for reporting.
    Failed(String),
}

/// The poller's state: the current interval (which the server may lengthen),
/// the fixed authorization window, and the loop phase.
pub struct DevicePoller {
    interval: u64,
    expires_in: u64,
    phase: PollPhase,
}

impl DevicePoller {
    /// The current poll interval, in seconds.
    pub closed spec fn interval(self) -> u64 {
        self.interval
    }

    /// The authorization window, in seconds from issuance.
    pub closed spec fn expires_in(self) -> u64 {
        self.expires_in
    }

    /// The loop phase.
    pub closed spec fn phase(self) -> PollPhase {
        self.phase
    }

    /// A poller at the top of its loop, with the interval and window the
    /// issuance endpoint granted.
    pub fn new(interval: u64, expires_in: u64) -> (p: DevicePoller)
        ensures
            p.interval() == interval,
            p.expires_in() == expires_in,
            p.phase() == PollPhase::BeforeWait,
    {
        DevicePoller { interval, expires_in, phase: PollPhase::BeforeWait }
    }

    /// A poller for the grant described by a device-code answer.
    pub fn for_device_code(code: &DeviceCode) -> (p: DevicePoller)
        ensures
            p.interval() == code.interval,
            p.expires_in() == code.expires_in,
            p.phase() == PollPhase::BeforeWait,
    {
        DevicePoller::new(code.interval, code.expires_in)
    }

    /// The current poll interval, in seconds.
    pub fn current_interval(&self) -> (s: u64)
        ensures
            s == self.interval(),
    {
        self.interval
    }

    /// Checks the clock against the authorization window, both before and
    /// after the sleep, so that a wait never races past expiry: at or past
    /// the window the flow times out; otherwise the caller either sleeps
    /// for the current interval or proceeds to the exchange.
    pub fn check_clock(&mut self, elapsed: u64) -> (step: ClockStep)
        requires
            old(self).phase() == PollPhase::BeforeWait || old(self).phase() == PollPhase::AfterWait,
        ensures
            final(self).interval() == old(self).interval(),
            final(self).expires_in() == old(self).expires_in(),
            elapsed >= old(self).expires_in() ==> step == ClockStep::TimedOut
                && final(self).phase() == PollPhase::Finished,
            elapsed < old(self).expires_in() && old(self).phase() == PollPhase::BeforeWait
                ==> step == ClockStep::Wait(old(self).interval())
                && final(self).phase() == PollPhase::AfterWait,
            elapsed < old(self).expires_in() && old(self).phase() == PollPhase::AfterWait
                ==> step == ClockStep::Exchange
                && final(self).phase() == PollPhase::Exchange,
    {
        if elapsed >= self.expires_in {
            self.phase = PollPhase::Finished;
            ClockStep::TimedOut
        } else if matches!(self.phase, PollPhase::BeforeWait) {
            self.phase = PollPhase::AfterWait;
            ClockStep::Wait(self.interval)
        } else {
            self.phase = PollPhase::Exchange;
            ClockStep::Exchange
        }
    }

    /// Dispatches one token-exchange answer. A token ends the flow; the
    /// pending code keeps polling at the same interval; the slow-down code
    /// keeps polling after lengthening the interval by five seconds (a
    /// server-mandated backoff); the expiry and denial codes end the flow;
    /// any other code, or a bare description, fails with the raw text; an
    /// answer with none of the three fields keeps polling unchanged.
    pub fn on_reply(&mut self, reply: TokenReply) -> (out: Option<PollOutcome>)
        requires
            old(self).phase() == PollPhase::Exchange,
            old(self).interval() <= u64::MAX - 5,
        ensures
            final(self).expires_in() == old(self).expires_in(),
            out is Some ==> final(self).phase() == PollPhase::Finished,
            out is None ==> final(self).phase() == PollPhase::BeforeWait,
            reply.access_token matches Some(t) ==> out == Some(PollOutcome::Token(t)),
            reply.error matches Some(e) && reply.access_token is None
                && e@ == "authorization_pending"@
                ==> out is None && final(self).interval() == old(self).interval(),
            reply.error matches Some(e) && reply.access_token is None
                && e@ == "slow_down"@
                ==> out is None && final(self).interval() == old(self).interval() + 5,
            reply.error matches Some(e) && reply.access_token is None
                && e@ == "expired_token"@
                ==> out == Some(PollOutcome::CodeExpired),
            reply.error matches Some(e) && reply.access_token is None
                && e@ == "access_denied"@
                ==> out == Some(PollOutcome::Denied),
            reply.error matches Some(e) ==> ((reply.access_token is None
                && e@ != "authorization_pending"@ && e@ != "slow_down"@
                && e@ != "expired_token"@ && e@ != "access_denied"@)
                ==> out == Some(PollOutcome::Failed(e))),
            reply.error_description matches Some(d) ==> ((reply.access_token is None
                && reply.error is None)
                ==> out == Some(PollOutcome::Failed(d))),
            reply.access_token is None && reply.error is None && reply.error_description is None
                ==> out is None && final(self).interval() == old(self).interval(),
    {
        if let Some(token) = reply.access_token {
            self.phase = PollPhase::Finished;
            return Some(PollOutcome::Token(token));
        }
        if let Some(error) = reply.error {
            match classify_code(&error) {
                PollCode::AuthorizationPending => {
                    self.phase = PollPhase::BeforeWait;
                    return None;
                },
                PollCode::SlowDown => {
                    self.interval = self.interval + 5;
                    self.phase = PollPhase::BeforeWait;
                    return None;
                },
                PollCode::ExpiredToken => {
                    self.phase = PollPhase::Finished;
                    return Some(PollOutcome::CodeExpired);
                },
                PollCode::AccessDenied => {
                    self.phase = PollPhase::Finished;
                    return Some(PollOutcome::Denied);
                },
                PollCode::Unrecognized => {
                    self.phase = PollPhase::Finished;
                    return Some(PollOutcome::Failed(error));
                },
            }
        }
        if let Some(description) = reply.error_description {
            self.phase = PollPhase::Finished;
            return Some(PollOutcome::Failed(description));
        }
        self.phase = PollPhase::BeforeWait;
        None
    }
}

} // verus!
