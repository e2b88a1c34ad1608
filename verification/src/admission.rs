//! The admission controller: a fixed pool of permits in front of request
//! processing. A request is admitted only while a permit is free, and is
//! turned away at once otherwise; it never waits.

use crate::config::Config;
use vstd::prelude::*;

verus! {

/// The pool size that stands for "no limit".
pub const UNLIMITED: usize = usize::MAX;

/// What happens to the pool.
#[derive(Clone, Copy, Debug, PartialEq, Eq, Structural)]
pub enum Traffic {
    /// A request arrives and asks for a permit.
    Arrive,
    /// An admitted request ends and hands its permit back.
    Finish,
}

/// The number of requests in flight after one event, in a pool of `permits`
/// that had `in_flight` permits out. An arrival takes a permit if one is
/// free; a finish hands one back.
pub open spec fn after(permits: nat, in_flight: nat, event: Traffic) -> nat {
    match event {
        Traffic::Arrive => if in_flight < permits {
            in_flight + 1
        } else {
            in_flight
        },
        Traffic::Finish => if in_flight > 0 {
            (in_flight - 1) as nat
        } else {
            0
        },
    }
}

/// The number of requests in flight after the first `n` of `events`, starting
/// with none.
pub open spec fn after_all(permits: nat, events: Seq<Traffic>, n: int) -> nat
    decreases n,
{
    if n <= 0 {
        0
    } else {
        after(permits, after_all(permits, events, n - 1), events[n - 1])
    }
}

/// The admission bound: whatever arrives and finishes, and in whatever order,
/// no more requests are in flight than the pool has permits.
pub proof fn lemma_admission_bound(permits: nat, events: Seq<Traffic>, n: int)
    ensures
        after_all(permits, events, n) <= permits,
    decreases n,
{
    if n > 0 {
        lemma_admission_bound(permits, events, n - 1);
    }
}

/// An arrival that finds every permit out changes nothing: it is turned
/// away, not queued.
pub proof fn lemma_full_pool_rejects(permits: nat)
    ensures
        after(permits, permits, Traffic::Arrive) == permits,
{
}

/// A pool of permits and the count of those that are out.
pub struct AdmissionController {
    permits: usize,
    in_flight: usize,
}

impl AdmissionController {
    /// The size of the pool.
    pub closed spec fn permits(&self) -> nat {
        self.permits as nat
    }

    /// The number of permits that are out.
    pub closed spec fn in_flight(&self) -> nat {
        self.in_flight as nat
    }

    /// No more permits are out than the pool has.
    pub open spec fn wf(&self) -> bool {
        self.in_flight() <= self.permits()
    }

    /// The pool size for a configured limit: the limit, or no limit.
    pub open spec fn pool_size(limit: Option<usize>) -> usize {
        match limit {
            Some(n) => n,
            None => UNLIMITED,
        }
    }

    /// The limit that a snapshot configures.
    pub open spec fn limit_of(config: Config) -> Option<usize> {
        match config.rate_limit {
            Some(r) => Some(r.max_requests),
            None => None,
        }
    }

    /// A pool of `limit` permits, all free; without a limit, a pool that does
    /// not run out.
    pub fn new(limit: Option<usize>) -> (c: AdmissionController)
        ensures
            c.wf(),
            c.permits() == Self::pool_size(limit),
            c.in_flight() == 0,
    {
        let permits = match limit {
            Some(n) => n,
            None => UNLIMITED,
        };
        AdmissionController { permits, in_flight: 0 }
    }

    /// The pool that a snapshot configures.
    pub fn from_config(config: &Config) -> (c: AdmissionController)
        ensures
            c.wf(),
            c.permits() == Self::pool_size(Self::limit_of(*config)),
            c.in_flight() == 0,
    {
        match &config.rate_limit {
            Some(r) => Self::new(Some(r.max_requests)),
            None => Self::new(None),
        }
    }

    /// The number of permits that are free.
    pub fn available(&self) -> (n: usize)
        requires
            self.wf(),
        ensures
            n == self.permits() - self.in_flight(),
    {
        self.permits - self.in_flight
    }

    /// Asks for a permit without waiting. The request is admitted exactly if
    /// a permit is free, and then one more is out.
    pub fn try_admit(&mut self) -> (admitted: bool)
        requires
            old(self).wf(),
        ensures
            final(self).wf(),
            final(self).permits() == old(self).permits(),
            admitted == (old(self).in_flight() < old(self).permits()),
            final(self).in_flight() == after(old(self).permits(), old(self).in_flight(), Traffic::Arrive),
    {
        if self.in_flight < self.permits {
            self.in_flight = self.in_flight + 1;
            true
        } else {
            false
        }
    }

    /// Hands a permit back when a request ends, however it ended.
    pub fn release(&mut self)
        requires
            old(self).wf(),
        ensures
            final(self).wf(),
            final(self).permits() == old(self).permits(),
            final(self).in_flight() == after(old(self).permits(), old(self).in_flight(), Traffic::Finish),
    {
        if self.in_flight > 0 {
            self.in_flight = self.in_flight - 1;
        }
    }
}

} // verus!
