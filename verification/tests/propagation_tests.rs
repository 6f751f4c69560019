//! Propagation verification: the two-phase wait machine.
use acme_client_route53::propagation::{DnsChange, PropagationWait, WaitCommand};
use acme_client_route53::publish::InitialWaitStrategy;

fn change(strategy: InitialWaitStrategy) -> DnsChange {
    DnsChange {
        record_name: b"_acme-challenge.www.example.com".to_vec(),
        txt_value: b"expected-token".to_vec(),
        initial_wait: strategy,
    }
}

/// Drive the machine with a fake resolver that misses for
/// `cycles_before_match` lookups and then answers with the expected
/// value.  Returns `Ok(true)` on success and `Err(())` on timeout, with
/// the simulated clock advanced ten seconds per poll cycle.
fn run_polling(timeout_secs: u32, cycles_before_match: u32) -> Result<bool, ()> {
    let (mut wait, first) = PropagationWait::start(change(InitialWaitStrategy::ConstantDelay(10)), timeout_secs);
    assert_eq!(first, WaitCommand::Proceed);
    let mut elapsed: u32 = 0;
    let mut cycle: u32 = 0;
    loop {
        match wait.on_tick(elapsed) {
            WaitCommand::SleepThenLookup(secs) => {
                elapsed += secs;
                let records = if cycle < cycles_before_match {
                    vec![b"some-other-token".to_vec()]
                } else {
                    vec![b"some-other-token".to_vec(), b"expected-token".to_vec()]
                };
                cycle += 1;
                match wait.on_lookup(Some(&records)) {
                    WaitCommand::ReportSuccess => return Ok(true),
                    WaitCommand::Proceed => {}
                    _ => unreachable!(),
                }
            }
            WaitCommand::ReportTimeout => return Err(()),
            _ => unreachable!(),
        }
    }
}

#[test]
fn succeeds_on_first_matching_cycle() {
    // With a 90 s budget and one poll every 10 s, lookups happen at
    // elapsed 10, 20, ..., 90; a match on the third answers succeeds.
    assert_eq!(run_polling(90, 2), Ok(true));
}

#[test]
fn succeeds_at_the_last_cycle_before_the_budget() {
    // The ninth lookup (elapsed 90) still happens: on_tick was called
    // at elapsed 80.
    assert_eq!(run_polling(90, 8), Ok(true));
}

#[test]
fn times_out_when_the_match_would_come_too_late() {
    // A match that would only appear on the tenth lookup is never
    // seen: at elapsed 90 the budget is spent.
    assert_eq!(run_polling(90, 9), Err(()));
}

#[test]
fn times_out_with_no_match_at_all() {
    assert_eq!(run_polling(90, u32::MAX), Err(()));
}

#[test]
fn long_constant_delay_sleeps_the_difference() {
    let (_wait, first) = PropagationWait::start(change(InitialWaitStrategy::ConstantDelay(50)), 90);
    assert_eq!(first, WaitCommand::Sleep(40));
}

#[test]
fn match_must_be_exact() {
    let (mut wait, _) = PropagationWait::start(change(InitialWaitStrategy::ConstantDelay(10)), 90);
    assert_eq!(wait.on_tick(0), WaitCommand::SleepThenLookup(10));
    // A prefix, a superstring and a failed resolution all miss.
    let near = vec![b"expected-toke".to_vec(), b"expected-token-more".to_vec()];
    assert_eq!(wait.on_lookup(Some(&near)), WaitCommand::Proceed);
    assert_eq!(wait.on_tick(10), WaitCommand::SleepThenLookup(10));
    assert_eq!(wait.on_lookup(None), WaitCommand::Proceed);
    assert_eq!(wait.on_tick(20), WaitCommand::SleepThenLookup(10));
    let hit = vec![b"expected-token".to_vec()];
    assert_eq!(wait.on_lookup(Some(&hit)), WaitCommand::ReportSuccess);
}

#[test]
fn tracked_change_polls_backend_until_insync() {
    let (mut wait, first) = PropagationWait::start(
        change(InitialWaitStrategy::TrackChangeStatus(b"change-1".to_vec())),
        90,
    );
    assert_eq!(first, WaitCommand::Proceed);
    assert_eq!(wait.on_tick(0), WaitCommand::PollChangeStatus);
    assert_eq!(wait.on_change_status(false), WaitCommand::Sleep(10));
    assert_eq!(wait.on_tick(10), WaitCommand::PollChangeStatus);
    assert_eq!(wait.on_change_status(true), WaitCommand::Proceed);
    // Now in the DNS polling phase.
    assert_eq!(wait.on_tick(10), WaitCommand::SleepThenLookup(10));
}

#[test]
fn tracked_change_still_times_out() {
    let (mut wait, _) = PropagationWait::start(
        change(InitialWaitStrategy::TrackChangeStatus(b"change-1".to_vec())),
        30,
    );
    assert_eq!(wait.on_tick(0), WaitCommand::PollChangeStatus);
    assert_eq!(wait.on_change_status(false), WaitCommand::Sleep(10));
    assert_eq!(wait.on_tick(10), WaitCommand::PollChangeStatus);
    assert_eq!(wait.on_change_status(false), WaitCommand::Sleep(10));
    assert_eq!(wait.on_tick(20), WaitCommand::PollChangeStatus);
    assert_eq!(wait.on_change_status(false), WaitCommand::Sleep(10));
    assert_eq!(wait.on_tick(30), WaitCommand::ReportTimeout);
}
