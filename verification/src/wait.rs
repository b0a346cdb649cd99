//! Waiting for a condition: how long to wait, how often to look, and when to give up.
//!
//! A wait looks at the page again and again. Before each look it checks whether the time it may
//! wait is up; after each look it either has its result, or fails, or sleeps for its period and
//! looks again.
use crate::error::{cmd_error_has_status, CmdError, ErrorStatus};
use crate::text::str_eq;
use crate::wd::{duration_from_millis, duration_millis, millis_duration};
use std::time::Duration;
use vstd::prelude::*;

verus! {

/// The length of `d` in nanoseconds, as `Duration::as_nanos` computes it.
pub uninterp spec fn duration_nanos(d: Duration) -> nat;

/// Calls `Duration::as_nanos`, which returns the total number of nanoseconds in `d`.
#[verifier::external_body]
fn duration_as_nanos(d: Duration) -> (n: u128)
    ensures
        n == duration_nanos(d),
{
    d.as_nanos()
}

/// How long a wait may last and how often it looks.
#[derive(Debug, Clone, Copy)]
pub struct WaitPolicy {
    timeout: Option<Duration>,
    period: Duration,
}

/// What a wait does after a look.
#[derive(Debug)]
pub enum WaitStep<T> {
    /// The wait is over, with this result.
    Finish(Result<T, CmdError>),
    /// The condition does not hold yet: sleep this long, then look again.
    Sleep(Duration),
}

impl WaitPolicy {
    /// The longest time the wait may last, if it may not last forever.
    pub closed spec fn limit(self) -> Option<Duration> {
        self.timeout
    }

    /// The time between two looks.
    pub closed spec fn interval(self) -> Duration {
        self.period
    }

    /// The default policy: give up after 30 seconds, look every 250 milliseconds.
    pub fn new() -> (p: WaitPolicy)
        ensures
            p.limit() == Some(millis_duration(30_000)),
            p.interval() == millis_duration(250),
            p.limit() matches Some(t) && duration_millis(t) == 30_000,
            duration_millis(p.interval()) == 250,
    {
        WaitPolicy { timeout: Some(duration_from_millis(30_000)), period: duration_from_millis(250) }
    }

    /// Wait at most this long.
    pub fn at_most(self, timeout: Duration) -> (p: WaitPolicy)
        ensures
            p.limit() == Some(timeout),
            p.interval() == self.interval(),
    {
        WaitPolicy { timeout: Some(timeout), period: self.period }
    }

    /// Wait forever.
    pub fn forever(self) -> (p: WaitPolicy)
        ensures
            p.limit() is None,
            p.interval() == self.interval(),
    {
        WaitPolicy { timeout: None, period: self.period }
    }

    /// Sets the period to delay checks.
    pub fn every(self, period: Duration) -> (p: WaitPolicy)
        ensures
            p.limit() == self.limit(),
            p.interval() == period,
    {
        WaitPolicy { timeout: self.timeout, period }
    }

    /// The longest time the wait may last, if it may not last forever.
    pub fn timeout(&self) -> (t: Option<Duration>)
        ensures
            t == self.limit(),
    {
        self.timeout
    }

    /// The time between two looks.
    pub fn period(&self) -> (d: Duration)
        ensures
            d == self.interval(),
    {
        self.period
    }

    /// Is the time up, `elapsed` after the wait began? It is when the wait has a limit and more
    /// than that time has passed.
    pub fn expired(&self, elapsed: Duration) -> (b: bool)
        ensures
            b == (self.limit() matches Some(t) && duration_nanos(elapsed) > duration_nanos(t)),
    {
        match self.timeout {
            Some(t) => duration_as_nanos(elapsed) > duration_as_nanos(t),
            None => false,
        }
    }

    /// Check before a look, `elapsed` after the wait began: a wait whose time is up fails with
    /// a timeout.
    pub fn before_look(&self, elapsed: Duration) -> (r: Result<(), CmdError>)
        ensures
            (self.limit() matches Some(t) && duration_nanos(elapsed) > duration_nanos(t)) ==> r
                == Err::<(), CmdError>(CmdError::WaitTimeout),
            !(self.limit() matches Some(t) && duration_nanos(elapsed) > duration_nanos(t)) ==> r
                is Ok,
    {
        if self.expired(elapsed) {
            Err(CmdError::WaitTimeout)
        } else {
            Ok(())
        }
    }

    /// What to do after a look: finish with its result or its error, or, when the condition
    /// does not hold yet, sleep for the period.
    pub fn after_look<T>(&self, look: Result<Option<T>, CmdError>) -> (s: WaitStep<T>)
        ensures
            look matches Ok(Some(v)) ==> s == WaitStep::Finish(Ok::<T, CmdError>(v)),
            look matches Err(e) ==> s == WaitStep::<T>::Finish(Err(e)),
            look matches Ok(None) ==> s == WaitStep::<T>::Sleep(self.interval()),
    {
        match look {
            Ok(Some(v)) => WaitStep::Finish(Ok(v)),
            Ok(None) => WaitStep::Sleep(self.period),
            Err(e) => WaitStep::Finish(Err(e)),
        }
    }
}

/// What a look for an element found: the element, nothing yet (the WebDriver found no such
/// element), or an error that ends the wait.
pub fn element_look<T>(found: Result<T, CmdError>) -> (r: Result<Option<T>, CmdError>)
    ensures
        found matches Ok(v) ==> r == Ok::<Option<T>, CmdError>(Some(v)),
        found matches Err(e) ==> (if cmd_error_has_status(e, ErrorStatus::NoSuchElement) {
            r == Ok::<Option<T>, CmdError>(None)
        } else {
            r == Err::<Option<T>, CmdError>(e)
        }),
{
    match found {
        Ok(v) => Ok(Some(v)),
        Err(e) => if e.is_no_such_element() {
            Ok(None)
        } else {
            Err(e)
        },
    }
}

/// What a look at the current URL found: the wait for `target` is over when the page is there.
pub fn url_look(current: &str, target: &str) -> (r: Option<()>)
    ensures
        r is Some <==> current@ == target@,
{
    if str_eq(current, target) {
        Some(())
    } else {
        None
    }
}

} // verus!
