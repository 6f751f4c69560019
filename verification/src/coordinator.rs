//! The bounded-concurrency issuance coordinator: fan the order
//! orchestration out over all configured requests, never more than the
//! concurrency bound in flight, and aggregate the first failure.
//!
//! The caller spawns and awaits the actual orchestrations; every
//! admission decision and the aggregation policy live here.
use vstd::prelude::*;

use crate::Error;

verus! {

/// How many orchestrations may run at once by default.
pub const REQUEST_CONCURRENT: usize = 4;

/// The coordinator's book-keeping for one run.
pub struct IssuanceCoordinator {
    /// How many requests the run serves.
    pub total: usize,
    /// How many orchestrations have been started.
    pub started: usize,
    /// How many orchestrations have finished.
    pub finished: usize,
    /// The concurrency bound.
    pub max_concurrency: usize,
    /// The first error among the finished orchestrations, in completion
    /// order; later outcomes are discarded from the report.
    pub first_error: Option<Error>,
}

impl IssuanceCoordinator {
    /// The coordinator's invariant.  In particular: the number of
    /// orchestrations in flight, `started - finished`, never exceeds
    /// the concurrency bound.
    pub open spec fn inv(&self) -> bool {
        &&& self.finished <= self.started <= self.total
        &&& self.started - self.finished <= self.max_concurrency
        &&& self.max_concurrency >= 1
    }

    /// At no point do more than `max_concurrency` orchestrations run
    /// at once.
    pub proof fn lemma_bounded_concurrency(&self)
        requires
            self.inv(),
        ensures
            self.started - self.finished <= self.max_concurrency,
    {
    }

    /// Set a run up for `total` requests under the given bound.
    pub fn new(total: usize, max_concurrency: usize) -> (r: IssuanceCoordinator)
        requires
            max_concurrency >= 1,
        ensures
            r.inv(),
            r.total == total,
            r.started == 0,
            r.finished == 0,
            r.max_concurrency == max_concurrency,
            r.first_error is None,
    {
        IssuanceCoordinator { total, started: 0, finished: 0, max_concurrency, first_error: None }
    }

    /// Admit the next orchestration when requests remain and the bound
    /// leaves room: the started request's index, or nothing.
    pub fn try_start(&mut self) -> (r: Option<usize>)
        requires
            old(self).inv(),
        ensures
            final(self).inv(),
            final(self).total == old(self).total,
            final(self).max_concurrency == old(self).max_concurrency,
            final(self).finished == old(self).finished,
            final(self).first_error == old(self).first_error,
            if old(self).started < old(self).total && old(self).started - old(self).finished
                < old(self).max_concurrency {
                &&& r == Some(old(self).started)
                &&& final(self).started == old(self).started + 1
            } else {
                &&& r is None
                &&& final(self).started == old(self).started
            },
    {
        if self.started < self.total && self.started - self.finished < self.max_concurrency {
            let idx = self.started;
            self.started = self.started + 1;
            Some(idx)
        } else {
            None
        }
    }

    /// Record one finished orchestration.  The first error observed is
    /// kept; every later outcome is discarded from the report.
    pub fn on_finished(&mut self, result: Result<(), Error>)
        requires
            old(self).inv(),
            old(self).finished < old(self).started,
        ensures
            final(self).inv(),
            final(self).total == old(self).total,
            final(self).max_concurrency == old(self).max_concurrency,
            final(self).started == old(self).started,
            final(self).finished == old(self).finished + 1,
            final(self).first_error == match (old(self).first_error, result) {
                (Some(e), _) => Some(e),
                (None, Err(e)) => Some(e),
                (None, Ok(_)) => None::<Error>,
            },
    {
        self.finished = self.finished + 1;
        match result {
            Err(e) => {
                match &self.first_error {
                    None => {
                        self.first_error = Some(e);
                    },
                    Some(_) => {},
                }
            },
            Ok(_) => {},
        }
    }

    /// Whether every orchestration has finished.
    pub fn is_done(&self) -> (r: bool)
        ensures
            r == (self.finished == self.total),
    {
        self.finished == self.total
    }

    /// The run's aggregate result: the first error observed, or
    /// success when none was.
    pub fn into_result(self) -> (r: Result<(), Error>)
        requires
            self.finished == self.total,
        ensures
            match self.first_error {
                Some(e) => r == Err::<(), Error>(e),
                None => r == Ok::<(), Error>(()),
            },
    {
        match self.first_error {
            Some(e) => Err(e),
            None => Ok(()),
        }
    }
}

} // verus!
