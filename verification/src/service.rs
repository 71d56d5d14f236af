//! The forwarding session manager: the bounded-retry loop that keeps a
//! port-forward alive. Each state of the loop is a type of its own, so that
//! only the events that can happen in a state can be reported in it.

use crate::error::{Error, ErrorView};
use vstd::prelude::*;
use vstd::string::*;

verus! {

/// How many attempts to establish a session are made when the options name
/// no number.
pub const DEFAULT_MAX_RETRIES: i32 = 3;

/// How many seconds pass after a failed attempt before the next one.
pub const BACKOFF_SECONDS: u64 = 5;

/// What a forwarding session is run with: the namespace and name of the
/// target, the ports to forward, and the number of attempts to make.
#[derive(Clone, Debug)]
pub struct ServiceOptions {
    pub namespace: String,
    pub name: String,
    pub ports: Vec<u16>,
    pub max_retries: Option<i32>,
}

impl ServiceOptions {
    /// Options that hold the values given.
    pub fn new(namespace: String, name: String, ports: Vec<u16>, max_retries: Option<i32>) -> (options:
        ServiceOptions)
        ensures
            options.namespace == namespace,
            options.name == name,
            options.ports == ports,
            options.max_retries == max_retries,
    {
        ServiceOptions { namespace, name, ports, max_retries }
    }

    /// The number of attempts that these options allow.
    pub open spec fn retries(&self) -> i32 {
        match self.max_retries {
            Some(max_retries) => max_retries,
            None => DEFAULT_MAX_RETRIES,
        }
    }

    /// A session manager at the start of its loop, with the number of
    /// attempts that these options allow, or three where they name none.
    pub fn session(&self) -> (session: Session)
        ensures
            session@ == fresh(self.retries()),
    {
        match self.max_retries {
            Some(max_retries) => Session::new(max_retries),
            None => Session::new(DEFAULT_MAX_RETRIES),
        }
    }
}

/// The state of the retry loop: the number of attempts allowed, and the
/// number of the attempt that is made next.
pub struct SessionView {
    pub max_retries: int,
    pub attempts: int,
}

/// The state at the start, and after every session that was established.
pub open spec fn fresh(max_retries: i32) -> SessionView {
    SessionView { max_retries: max_retries as int, attempts: 1 }
}

impl SessionView {
    /// Whether the loop gives up in this state rather than try again.
    pub open spec fn exhausted(self) -> bool {
        self.attempts > self.max_retries
    }

    /// The state after one more attempt has failed.
    pub open spec fn after_failure(self) -> SessionView {
        SessionView { attempts: self.attempts + 1, ..self }
    }

    /// The state after `count` more attempts have failed in a row.
    pub open spec fn after_failures(self, count: nat) -> SessionView
        decreases count,
    {
        if count == 0 {
            self
        } else {
            self.after_failures((count - 1) as nat).after_failure()
        }
    }

    /// The state after a session was established.
    pub open spec fn after_success(self) -> SessionView {
        SessionView { attempts: 1, ..self }
    }
}

/// The loop at its head, about to decide whether to try again.
#[derive(Debug)]
pub struct Session {
    max_retries: i32,
    attempts: i64,
}

/// The loop while an attempt to establish a session is under way.
#[derive(Debug)]
pub struct Connecting {
    max_retries: i32,
    attempts: i64,
}

/// The loop while a session is established and forwards.
#[derive(Debug)]
pub struct Forwarding {
    max_retries: i32,
}

/// The loop while it waits after a failed attempt.
#[derive(Debug)]
pub struct Backoff {
    max_retries: i32,
    attempts: i64,
}

/// What the loop does at its head.
#[derive(Debug)]
pub enum Attempt {
    /// Try to establish a session.
    Establish(Connecting),
    /// Give up for good.
    GiveUp(Error),
}

impl View for Session {
    type V = SessionView;

    closed spec fn view(&self) -> SessionView {
        SessionView { max_retries: self.max_retries as int, attempts: self.attempts as int }
    }
}

impl View for Connecting {
    type V = SessionView;

    closed spec fn view(&self) -> SessionView {
        SessionView { max_retries: self.max_retries as int, attempts: self.attempts as int }
    }
}

impl View for Forwarding {
    type V = SessionView;

    closed spec fn view(&self) -> SessionView {
        SessionView { max_retries: self.max_retries as int, attempts: 1 }
    }
}

impl View for Backoff {
    type V = SessionView;

    closed spec fn view(&self) -> SessionView {
        SessionView { max_retries: self.max_retries as int, attempts: self.attempts as int }
    }
}

impl Session {
    #[verifier::type_invariant]
    spec fn bounded(&self) -> bool {
        1 <= self.attempts <= 0x8000_0000
    }

    /// The loop at its start: the first attempt is next.
    pub fn new(max_retries: i32) -> (session: Session)
        ensures
            session@ == fresh(max_retries),
    {
        Session { max_retries, attempts: 1 }
    }

    /// The head of the loop: gives up with `MaxAttempts` once more attempts
    /// were made in a row than are allowed, else tries to establish a
    /// session.
    pub fn next(self) -> (attempt: Attempt)
        ensures
            match attempt {
                Attempt::Establish(connecting) => !self@.exhausted() && connecting@ == self@,
                Attempt::GiveUp(error) => self@.exhausted() && error@ == ErrorView::MaxAttempts(
                    self@.max_retries as i32,
                ),
            },
    {
        proof {
            use_type_invariant(&self);
        }
        if self.attempts > self.max_retries as i64 {
            Attempt::GiveUp(Error::MaxAttempts(self.max_retries))
        } else {
            Attempt::Establish(
                Connecting { max_retries: self.max_retries, attempts: self.attempts },
            )
        }
    }
}

impl Connecting {
    #[verifier::type_invariant]
    spec fn bounded(&self) -> bool {
        1 <= self.attempts <= self.max_retries
    }

    /// A session was established: the count of attempts starts over.
    pub fn established(self) -> (forwarding: Forwarding)
        ensures
            forwarding@ == self@.after_success(),
    {
        Forwarding { max_retries: self.max_retries }
    }

    /// The attempt failed: it is counted, and the loop waits before it goes
    /// on.
    pub fn failed(self) -> (backoff: Backoff)
        ensures
            backoff@ == self@.after_failure(),
    {
        proof {
            use_type_invariant(&self);
        }
        Backoff { max_retries: self.max_retries, attempts: self.attempts + 1 }
    }
}

impl Forwarding {
    /// The session ended with an error: the loop goes on at once, without
    /// waiting, and with the count of attempts as after the success.
    pub fn dropped(self) -> (session: Session)
        ensures
            session@ == self@,
    {
        Session { max_retries: self.max_retries, attempts: 1 }
    }

    /// The session ended cleanly: the loop ends with success.
    pub fn closed(self) -> (outcome: Result<(), Error>)
        ensures
            outcome is Ok,
    {
        Ok(())
    }
}

impl Backoff {
    #[verifier::type_invariant]
    spec fn bounded(&self) -> bool {
        1 <= self.attempts <= 0x8000_0000
    }

    /// How many seconds to wait before the loop goes on.
    pub fn seconds(&self) -> (seconds: u64)
        ensures
            seconds == BACKOFF_SECONDS,
    {
        BACKOFF_SECONDS
    }

    /// The wait is over: the loop is at its head again.
    pub fn elapsed(self) -> (session: Session)
        ensures
            session@ == self@,
    {
        proof {
            use_type_invariant(&self);
        }
        Session { max_retries: self.max_retries, attempts: self.attempts }
    }
}

/// Counting failures one by one adds them up.
pub proof fn lemma_after_failures(state: SessionView, count: nat)
    ensures
        state.after_failures(count) == (SessionView {
            attempts: state.attempts + count,
            ..state
        }),
    decreases count,
{
    if count > 0 {
        lemma_after_failures(state, (count - 1) as nat);
    }
}

/// When establishment keeps failing from the start, the loop gives up after
/// exactly as many attempts as are allowed, and no earlier: after `count`
/// failures in a row it gives up if and only if `count` has reached the
/// number allowed (at once, where none is allowed).
pub proof fn law_retry_exhaustion(max_retries: i32, count: nat)
    ensures
        fresh(max_retries).after_failures(count).exhausted() <==> count >= max_retries,
{
    lemma_after_failures(fresh(max_retries), count);
}

/// A session that was established resets the count: whatever attempts
/// failed before it, once it has dropped the loop stands as at the start,
/// and gives up only after as many further failures as are allowed.
pub proof fn law_counter_reset(state: SessionView, max_retries: i32, count: nat)
    requires
        state.max_retries == max_retries,
    ensures
        state.after_success() == fresh(max_retries),
        state.after_success().after_failures(count).exhausted() <==> count >= max_retries,
{
    law_retry_exhaustion(max_retries, count);
}

} // verus!
