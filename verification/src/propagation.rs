//! Propagation verification: wait out the initial strategy, then poll
//! public DNS until the expected TXT value is visible or the budget is
//! spent.
//!
//! The machine here makes every decision of that loop; the caller
//! performs the sleeps, the backend status polls and the cache-bypassing
//! TXT lookups, and reports what it observed together with the seconds
//! elapsed since the wait began.  A backend's write acknowledgment is
//! never trusted as proof of global visibility: only an observed lookup
//! can succeed the wait.
use vstd::prelude::*;

use crate::bytestr::{bytes_eq, seqs_view};
use crate::publish::{InitialWaitStrategy, StrategyModel};

verus! {

/// Seconds between DNS polls, and between backend status polls.
pub const POLLING_INTERVAL_SECS: u32 = 10;

/// One pending TXT change: where it was written, what value must become
/// visible, and how to wait before polling starts.
pub struct DnsChange {
    /// The record name to look up.
    pub record_name: Vec<u8>,
    /// The exact TXT value that must appear.
    pub txt_value: Vec<u8>,
    /// The strategy the publisher returned for this write.
    pub initial_wait: InitialWaitStrategy,
}

/// Where the wait stands.
#[derive(Debug, PartialEq, Eq, Structural)]
pub enum WaitPhase {
    /// Polling the backend's own change status until it reports in-sync.
    Tracking,
    /// Polling public DNS for the expected TXT value.
    Polling,
    /// The expected value was observed.
    Succeeded,
    /// The budget elapsed with no match.
    TimedOut,
}

/// What the caller must do next.
#[derive(Debug, PartialEq, Eq)]
pub enum WaitCommand {
    /// Sleep this many seconds, then call `on_tick`.
    Sleep(u32),
    /// Ask the backend for the change status, then call
    /// `on_change_status`.
    PollChangeStatus,
    /// Sleep this many seconds, look the record up with a cache-bypassing
    /// resolver, then call `on_lookup`.
    SleepThenLookup(u32),
    /// Call `on_tick` with the current elapsed time.
    Proceed,
    /// The value is visible: the wait succeeded.
    ReportSuccess,
    /// The budget elapsed: fail with a propagation timeout.
    ReportTimeout,
}

/// Whether the observed TXT strings of one lookup (one entry per TXT
/// character string; `None` when resolution failed) contain `v`.
pub open spec fn lookup_has_value(records: Option<Seq<Seq<u8>>>, v: Seq<u8>) -> bool {
    match records {
        Some(rs) => rs.contains(v),
        None => false,
    }
}

/// Whether any observed TXT string equals `v` exactly.
fn records_contain(rs: &Vec<Vec<u8>>, v: &[u8]) -> (r: bool)
    ensures
        r == lookup_has_value(Some(seqs_view(rs@)), v@),
{
    let ghost rv = seqs_view(rs@);
    let mut i: usize = 0;
    while i < rs.len()
        invariant
            i <= rs@.len(),
            rv == seqs_view(rs@),
            rv.len() == rs@.len(),
            forall|j: int| 0 <= j < i ==> rv[j] != v@,
        decreases rs@.len() - i,
    {
        proof {
            assert(rv[i as int] == rs@[i as int]@);
        }
        if bytes_eq(rs[i].as_slice(), v) {
            proof {
                assert(0 <= i < seqs_view(rs@).len() && seqs_view(rs@)[i as int] == v@);
                assert(lookup_has_value(Some(seqs_view(rs@)), v@));
            }
            return true;
        }
        i = i + 1;
    }
    proof {
        assert(!lookup_has_value(Some(rv), v@));
    }
    false
}

/// The propagation wait for one published change.
pub struct PropagationWait {
    /// The change being waited for.
    pub change: DnsChange,
    /// The whole wait's budget in seconds.
    pub timeout_secs: u32,
    /// Where the wait stands.
    pub phase: WaitPhase,
    /// Whether some past lookup contained the expected value.
    pub match_seen: Ghost<bool>,
}

impl PropagationWait {
    /// The wait's invariant: it can only have succeeded after a lookup
    /// contained the expected value.
    pub open spec fn inv(&self) -> bool {
        self.phase is Succeeded ==> self.match_seen@
    }

    /// Begin the wait.  With a constant-delay strategy the first command
    /// sleeps the delay less one polling interval (nothing, when the
    /// delay is no longer than the interval) and DNS polling starts; with
    /// a tracked change the backend status is polled first.
    pub fn start(change: DnsChange, timeout_secs: u32) -> (r: (PropagationWait, WaitCommand))
        ensures
            r.0.change == change,
            r.0.timeout_secs == timeout_secs,
            r.0.inv(),
            !(r.0.phase is Succeeded) && !(r.0.phase is TimedOut),
            match change.initial_wait@ {
                StrategyModel::ConstantDelay(secs) => {
                    &&& r.0.phase is Polling
                    &&& if secs > POLLING_INTERVAL_SECS {
                        r.1 == WaitCommand::Sleep((secs - POLLING_INTERVAL_SECS) as u32)
                    } else {
                        r.1 == WaitCommand::Proceed
                    }
                },
                StrategyModel::TrackChangeStatus(_) => r.0.phase is Tracking && r.1
                    == WaitCommand::Proceed,
            },
    {
        let (phase, cmd) = match &change.initial_wait {
            InitialWaitStrategy::ConstantDelay(secs) => {
                if *secs > POLLING_INTERVAL_SECS {
                    (WaitPhase::Polling, WaitCommand::Sleep(*secs - POLLING_INTERVAL_SECS))
                } else {
                    (WaitPhase::Polling, WaitCommand::Proceed)
                }
            },
            InitialWaitStrategy::TrackChangeStatus(_) => (
                WaitPhase::Tracking,
                WaitCommand::Proceed,
            ),
        };
        (
            PropagationWait {
                change,
                timeout_secs,
                phase,
                match_seen: Ghost(false),
            },
            cmd,
        )
    }

    /// Decide the next step from the elapsed time.  While budget
    /// remains, tracking polls the backend and polling sleeps one
    /// interval and looks the record up; once `elapsed_secs` reaches the
    /// budget the wait times out.
    pub fn on_tick(&mut self, elapsed_secs: u32) -> (c: WaitCommand)
        requires
            old(self).inv(),
            old(self).phase is Tracking || old(self).phase is Polling,
        ensures
            final(self).inv(),
            final(self).change == old(self).change,
            final(self).timeout_secs == old(self).timeout_secs,
            final(self).match_seen == old(self).match_seen,
            if elapsed_secs >= old(self).timeout_secs {
                final(self).phase is TimedOut && c == WaitCommand::ReportTimeout
            } else {
                final(self).phase == old(self).phase && (if old(self).phase is Tracking {
                    c == WaitCommand::PollChangeStatus
                } else {
                    c == WaitCommand::SleepThenLookup(POLLING_INTERVAL_SECS)
                })
            },
    {
        if elapsed_secs >= self.timeout_secs {
            self.phase = WaitPhase::TimedOut;
            WaitCommand::ReportTimeout
        } else if self.phase == WaitPhase::Tracking {
            WaitCommand::PollChangeStatus
        } else {
            WaitCommand::SleepThenLookup(POLLING_INTERVAL_SECS)
        }
    }

    /// Take the backend's change status: in-sync moves on to DNS
    /// polling, otherwise sleep one interval and check again.
    pub fn on_change_status(&mut self, insync: bool) -> (c: WaitCommand)
        requires
            old(self).inv(),
            old(self).phase is Tracking,
        ensures
            final(self).inv(),
            final(self).change == old(self).change,
            final(self).timeout_secs == old(self).timeout_secs,
            final(self).match_seen == old(self).match_seen,
            if insync {
                final(self).phase is Polling && c == WaitCommand::Proceed
            } else {
                final(self).phase is Tracking && c == WaitCommand::Sleep(POLLING_INTERVAL_SECS)
            },
    {
        if insync {
            self.phase = WaitPhase::Polling;
            WaitCommand::Proceed
        } else {
            WaitCommand::Sleep(POLLING_INTERVAL_SECS)
        }
    }

    /// Take one lookup's observation: the wait succeeds exactly when the
    /// resolved TXT set contains the expected value; otherwise polling
    /// continues.  `records` is `None` when resolution itself failed.
    pub fn on_lookup(&mut self, records: Option<&Vec<Vec<u8>>>) -> (c: WaitCommand)
        requires
            old(self).inv(),
            old(self).phase is Polling,
        ensures
            final(self).inv(),
            final(self).change == old(self).change,
            final(self).timeout_secs == old(self).timeout_secs,
            final(self).match_seen@ == (old(self).match_seen@ || lookup_has_value(
                match records {
                    Some(rs) => Some(seqs_view(rs@)),
                    None => None,
                },
                old(self).change.txt_value@,
            )),
            ({
                let observed = match records {
                    Some(rs) => Some(seqs_view(rs@)),
                    None => None,
                };
                if lookup_has_value(observed, old(self).change.txt_value@) {
                    final(self).phase is Succeeded && c == WaitCommand::ReportSuccess
                } else {
                    final(self).phase is Polling && c == WaitCommand::Proceed
                }
            }),
    {
        let matched = match records {
            Some(rs) => records_contain(rs, self.change.txt_value.as_slice()),
            None => false,
        };
        if matched {
            self.phase = WaitPhase::Succeeded;
            self.match_seen = Ghost(true);
            WaitCommand::ReportSuccess
        } else {
            WaitCommand::Proceed
        }
    }
}

} // verus!

