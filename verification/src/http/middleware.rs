use vstd::prelude::*;

use core::time::Duration;

verus! {

/// A layer that wraps a service so that every call races a timeout.
#[derive(Debug)]
pub struct TimeoutLayer {
    timeout: Duration,
}

impl TimeoutLayer {
    /// The configured timeout.
    pub closed spec fn timeout_spec(&self) -> Duration {
        self.timeout
    }

    pub fn new(timeout: Duration) -> (r: Self)
        ensures
            r.timeout_spec() == timeout,
    {
        TimeoutLayer { timeout }
    }

    /// The configured timeout.
    pub fn timeout(&self) -> (r: Duration)
        ensures
            r == self.timeout_spec(),
    {
        self.timeout
    }

    /// Wrap one service with this layer's timeout.
    pub fn layer<S>(&self, service: S) -> (r: Timeout<S>)
        ensures
            r.inner_spec() == service,
            r.timeout_spec() == self.timeout_spec(),
    {
        Timeout::new(service, self.timeout)
    }
}

/// A service whose calls race the wrapped service's response against a
/// timeout.
#[derive(Debug)]
pub struct Timeout<S> {
    inner: S,
    timeout: Duration,
}

impl<S> Timeout<S> {
    /// The wrapped service.
    pub closed spec fn inner_spec(&self) -> S {
        self.inner
    }

    /// The configured timeout.
    pub closed spec fn timeout_spec(&self) -> Duration {
        self.timeout
    }

    pub fn new(inner: S, timeout: Duration) -> (r: Self)
        ensures
            r.inner_spec() == inner,
            r.timeout_spec() == timeout,
    {
        Timeout { inner, timeout }
    }

    /// Take the service apart again: the wrapped service and the timeout.
    pub fn into_parts(self) -> (r: (S, Duration))
        ensures
            r.0 == self.inner_spec(),
            r.1 == self.timeout_spec(),
    {
        let Timeout { inner, timeout } = self;
        (inner, timeout)
    }
}

impl Clone for TimeoutLayer {
    fn clone(&self) -> (r: Self)
        ensures
            r.timeout_spec() == self.timeout_spec(),
    {
        TimeoutLayer { timeout: self.timeout }
    }
}

/// How one poll of a timed-out call resolves.
#[derive(Clone, Copy, Debug, Eq, PartialEq, Structural)]
pub enum TimeoutPoll {
    /// The wrapped service answered first: its response goes through.
    Inner,
    /// The timer fired first: the call fails with a timeout error.
    TimedOut,
    /// Neither is ready yet.
    StillPending,
}

/// The decision of one poll: the wrapped service's response takes priority
/// over the timer, and only when neither is ready does the call stay
/// pending.
pub fn poll_race(inner_ready: bool, sleep_ready: bool) -> (r: TimeoutPoll)
    ensures
        r == if inner_ready {
            TimeoutPoll::Inner
        } else if sleep_ready {
            TimeoutPoll::TimedOut
        } else {
            TimeoutPoll::StillPending
        },
{
    if inner_ready {
        TimeoutPoll::Inner
    } else if sleep_ready {
        TimeoutPoll::TimedOut
    } else {
        TimeoutPoll::StillPending
    }
}

} // verus!
