//! ACME DNS-01 certificate issuance logic for domains split across two
//! DNS-hosting backends (Lightsail and Route53).
//!
//! The crate holds the decision logic of the issuance pipeline: DNS-zone
//! ownership resolution, per-provider challenge publication planning,
//! propagation verification, the ACME order state machine, and the
//! bounded-concurrency issuance coordinator.  Network and file I/O live
//! outside the library; callers feed observed values in and carry the
//! returned plans and commands out.
//!
//! DNS names, record values, ids and PEM text are handled as byte vectors:
//! all of them are ASCII in the protocols involved.
use vstd::prelude::*;

pub mod account;
pub mod acme;
pub mod bytestr;
pub mod config;
pub mod coordinator;
pub mod csr;
pub mod output;
pub mod pem;
pub mod propagation;
pub mod publish;
pub mod zones;

verus! {

/// The error taxonomy of the issuance pipeline.
///
/// Configuration errors (`CsrPemParse`, `CsrParse`, `NoDnsZone`,
/// `DnsChallengeNotSupported`, `InvalidOutCrtFile`) are fatal for one
/// certificate request and never retried.  Timeout errors
/// (`DnsUpdateTimeout`, `CertificateIssueTimeout`) are fatal after their
/// budget.  `AcmeChallengeIncomplete` reports an order that reached a
/// status from which issuance cannot proceed.
#[derive(Clone, PartialEq, Eq, Debug)]
pub enum Error {
    /// The PEM envelope of a certificate signing request did not parse.
    CsrPemParse,
    /// The DER payload of a certificate signing request did not parse,
    /// had no common name, or its common name was not a string.
    CsrParse,
    /// The issued certificate bundle was not exactly two PEM blocks.
    CrtPemParse,
    /// No known DNS zone owns the named host.
    NoDnsZone(Vec<u8>),
    /// A pending authorization offered no DNS-01 challenge.
    DnsChallengeNotSupported,
    /// The order reached a status from which validation cannot complete.
    AcmeChallengeIncomplete,
    /// The expected TXT value was never observed within the budget.
    DnsUpdateTimeout,
    /// No certificate appeared within the polling budget.
    CertificateIssueTimeout,
    /// The certificate output target is a URL of an unsupported scheme
    /// or lacks a host.
    InvalidOutCrtFile(Vec<u8>),
    /// A backend API call failed; the caller observed the failure.
    Provider,
}

} // verus!
