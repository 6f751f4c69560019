//! The bounded-concurrency issuance coordinator.
use acme_client_route53::coordinator::{IssuanceCoordinator, REQUEST_CONCURRENT};
use acme_client_route53::Error;

#[test]
fn never_exceeds_the_concurrency_bound() {
    let mut c = IssuanceCoordinator::new(10, REQUEST_CONCURRENT);
    let mut in_flight: Vec<usize> = Vec::new();
    let mut max_in_flight: usize = 0;
    let mut done: usize = 0;
    // Admit greedily, finish one at a time, and watch the peak.
    while done < 10 {
        while let Some(idx) = c.try_start() {
            in_flight.push(idx);
            assert!(in_flight.len() <= REQUEST_CONCURRENT);
            if in_flight.len() > max_in_flight {
                max_in_flight = in_flight.len();
            }
        }
        let _finished = in_flight.remove(0);
        c.on_finished(Ok(()));
        done += 1;
    }
    assert!(c.is_done());
    assert_eq!(max_in_flight, REQUEST_CONCURRENT);
    assert!(matches!(c.into_result(), Ok(())));
}

#[test]
fn admissions_hand_out_indexes_in_order() {
    let mut c = IssuanceCoordinator::new(3, 2);
    assert_eq!(c.try_start(), Some(0));
    assert_eq!(c.try_start(), Some(1));
    // The bound is reached.
    assert_eq!(c.try_start(), None);
    c.on_finished(Ok(()));
    assert_eq!(c.try_start(), Some(2));
    assert_eq!(c.try_start(), None);
    c.on_finished(Ok(()));
    c.on_finished(Ok(()));
    assert!(c.is_done());
}

#[test]
fn first_error_wins_and_later_outcomes_are_discarded() {
    let mut c = IssuanceCoordinator::new(3, 4);
    assert_eq!(c.try_start(), Some(0));
    assert_eq!(c.try_start(), Some(1));
    assert_eq!(c.try_start(), Some(2));
    c.on_finished(Ok(()));
    c.on_finished(Err(Error::DnsUpdateTimeout));
    c.on_finished(Err(Error::CertificateIssueTimeout));
    assert!(c.is_done());
    assert!(matches!(c.into_result(), Err(Error::DnsUpdateTimeout)));
}

#[test]
fn all_successes_report_success() {
    let mut c = IssuanceCoordinator::new(2, 4);
    assert_eq!(c.try_start(), Some(0));
    assert_eq!(c.try_start(), Some(1));
    assert_eq!(c.try_start(), None);
    c.on_finished(Ok(()));
    c.on_finished(Ok(()));
    assert!(matches!(c.into_result(), Ok(())));
}
