//! The ACME order state machine: from a checked signing request through
//! challenge publication, validation, finalization and certificate
//! polling to the issued chain.
//!
//! Every transition decision is made here; the caller performs the ACME
//! network calls and reports what the server answered.  The machine
//! guarantees that issuance is reached only after every pending
//! authorization's challenge has been marked ready, and that a missing
//! DNS-01 offer fails the order before finalization can be requested.
use vstd::prelude::*;

use crate::bytestr::{concat_bytes, copy_bytes, seqs_view};
use crate::config::{Config, CertReqConfig, spec_canonical_host};
use crate::csr::{CsrModel, X509Csr, spec_parse_csr, pem_payload_of, csr_fields_of};
use crate::pem::{AcmeIssuedCertificate, blocks_view, pem_blocks_of};
use crate::zones::{AllDnsZones, ZoneModel, zone_matches};
use crate::Error;

verus! {

/// Seconds between order-status polls and certificate polls.
pub const STATUS_POLL_INTERVAL_SECS: u32 = 5;

/// How many times the order status is checked before finalization is
/// attempted regardless.
pub const MAX_STATUS_POLLS: u32 = 3;

/// How many times the issued certificate is polled for before the
/// order fails with a timeout.
pub const MAX_CERT_POLLS: u32 = 12;

/// The status of one authorization as the ACME server reports it.
pub enum AuthStatus {
    Pending,
    Valid,
    Invalid,
    Deactivated,
    Expired,
    Revoked,
}

/// The kind of one offered challenge.
pub enum ChallengeKind {
    Dns01,
    Http01,
    TlsAlpn01,
    Other,
}

/// One challenge the server offers within an authorization.
pub struct ChallengeOffer {
    /// The validation method.
    pub kind: ChallengeKind,
    /// The challenge URL, used to mark it ready.
    pub url: Vec<u8>,
}

/// One authorization of the submitted order.
pub struct AcmeAuthorization {
    /// The DNS identifier the authorization covers.
    pub hostname: Vec<u8>,
    /// The authorization's status.
    pub status: AuthStatus,
    /// The offered challenges.
    pub challenges: Vec<ChallengeOffer>,
}

/// One DNS-01 challenge to publish and verify: the host it validates
/// and the URL to mark ready afterwards.
pub struct ChallengeTask {
    /// The host being validated.
    pub hostname: Vec<u8>,
    /// The challenge URL.
    pub challenge_url: Vec<u8>,
}

/// The views of a task list.
pub open spec fn tasks_view(ts: Seq<ChallengeTask>) -> Seq<(Seq<u8>, Seq<u8>)> {
    ts.map_values(|t: ChallengeTask| (t.hostname@, t.challenge_url@))
}

/// The status of the whole order as the ACME server reports it.
pub enum AcmeOrderStatus {
    Pending,
    Ready,
    Processing,
    Valid,
    Invalid,
}

/// The URL of the first DNS-01 challenge among `cs`, if any.
pub open spec fn spec_first_dns01(cs: Seq<ChallengeOffer>) -> Option<Seq<u8>>
    decreases cs.len(),
{
    if cs.len() == 0 {
        None
    } else if cs[0].kind is Dns01 {
        Some(cs[0].url@)
    } else {
        spec_first_dns01(cs.skip(1))
    }
}

/// The challenge tasks an authorization list yields: one per pending
/// authorization, in order, each from its first DNS-01 offer; `None`
/// when some pending authorization offers no DNS-01 challenge.
/// Authorizations in any other status are skipped.
pub open spec fn spec_tasks(auths: Seq<AcmeAuthorization>) -> Option<Seq<(Seq<u8>, Seq<u8>)>>
    decreases auths.len(),
{
    if auths.len() == 0 {
        Some(Seq::empty())
    } else {
        match spec_tasks(auths.drop_last()) {
            None => None,
            Some(ts) => {
                let a = auths.last();
                if a.status is Pending {
                    match spec_first_dns01(a.challenges@) {
                        Some(url) => Some(ts.push((a.hostname@, url))),
                        None => None,
                    }
                } else {
                    Some(ts)
                }
            },
        }
    }
}

/// A pending authorization without a DNS-01 offer poisons the whole
/// list: no task list exists for it.
pub proof fn lemma_spec_tasks_none(auths: Seq<AcmeAuthorization>, i: int)
    requires
        0 <= i < auths.len(),
        auths[i].status is Pending,
        spec_first_dns01(auths[i].challenges@) is None,
    ensures
        spec_tasks(auths) is None,
    decreases auths.len(),
{
    if i == auths.len() - 1 {
    } else {
        lemma_spec_tasks_none(auths.drop_last(), i);
    }
}

/// All hosts a signing request asks a certificate for: the subject
/// first, then the alternative names.
pub open spec fn spec_subjects(csr: CsrModel) -> Seq<Seq<u8>> {
    seq![csr.subject] + csr.alt_names
}

/// Some zone owns `host`.
pub open spec fn zone_known(zones: Seq<ZoneModel>, host: Seq<u8>) -> bool {
    exists|i: int| zone_matches(zones, host, i)
}

/// `_acme-challenge.`
pub open spec fn spec_challenge_prefix() -> Seq<u8> {
    seq![
        95u8,
        97u8,
        99u8,
        109u8,
        101u8,
        45u8,
        99u8,
        104u8,
        97u8,
        108u8,
        108u8,
        101u8,
        110u8,
        103u8,
        101u8,
        46u8,
    ]
}

/// The TXT record name that validates `hostname`, after the CNAME
/// remap: the canonical form of `_acme-challenge.<hostname>`.
pub open spec fn spec_challenge_record(
    cname: Seq<(Seq<u8>, Seq<u8>)>,
    hostname: Seq<u8>,
) -> Seq<u8> {
    spec_canonical_host(cname, spec_challenge_prefix() + hostname)
}

/// A checked, not yet submitted order: the configuration and the
/// parsed signing request whose hosts all have owning zones.
pub struct AcmeOrder {
    /// The run configuration.
    pub config: Config,
    /// The parsed signing request.
    pub csr: X509Csr,
}

/// The pair of values an order is built from.
pub struct AcmeOrderBuilder {
    /// The run configuration.
    pub config: Config,
    /// The request entry being served.
    pub cert_cfg: CertReqConfig,
}

impl AcmeOrder {
    /// Begin building an order for one certificate request.
    pub fn new(config: Config, cert_cfg: CertReqConfig) -> (r: Result<AcmeOrderBuilder, Error>)
        ensures
            match r {
                Ok(b) => b.config@ == config@ && b.cert_cfg@ == cert_cfg@,
                Err(_) => false,
            },
    {
        Ok(AcmeOrderBuilder { config, cert_cfg })
    }
}

impl AcmeOrderBuilder {
    /// Parse the signing request and check, before any network side
    /// effect, that every subject host's canonical form has an owning
    /// zone; the first host without one fails the request.
    pub fn load_and_check_csr(&self, csr_pem: &[u8], dns_zones: &AllDnsZones) -> (r: Result<
        AcmeOrder,
        Error,
    >)
        ensures
            match r {
                Ok(o) => {
                    &&& o.config@ == self.config@
                    &&& pem_payload_of(csr_pem@) == Some(o.csr@.der)
                    &&& Some((o.csr@.subject, o.csr@.alt_names)) == spec_parse_csr(o.csr@.der)
                    &&& forall|k: int|
                        0 <= k < spec_subjects(o.csr@).len() ==> zone_known(
                            dns_zones@,
                            spec_canonical_host(
                                self.config@.cname,
                                #[trigger] spec_subjects(o.csr@)[k],
                            ),
                        )
                },
                Err(e) => match e {
                    Error::CsrPemParse => pem_payload_of(csr_pem@) is None,
                    Error::CsrParse => {
                        &&& pem_payload_of(csr_pem@) is Some
                        &&& csr_fields_of(pem_payload_of(csr_pem@)->Some_0) is None
                    },
                    Error::NoDnsZone(h) => {
                        let der = pem_payload_of(csr_pem@)->Some_0;
                        let names = spec_parse_csr(der)->Some_0;
                        let subs = seq![names.0] + names.1;
                        &&& pem_payload_of(csr_pem@) is Some
                        &&& spec_parse_csr(der) is Some
                        &&& exists|k: int|
                            {
                                &&& 0 <= k < subs.len()
                                &&& h@ == spec_canonical_host(
                                    self.config@.cname,
                                    #[trigger] subs[k],
                                )
                                &&& !zone_known(dns_zones@, h@)
                                &&& forall|j: int|
                                    0 <= j < k ==> zone_known(
                                        dns_zones@,
                                        spec_canonical_host(
                                            self.config@.cname,
                                            #[trigger] subs[j],
                                        ),
                                    )
                            }
                    },
                    _ => false,
                },
            },
    {
        let csr = match X509Csr::from_pem_bytes(csr_pem) {
            Ok(c) => c,
            Err(e) => {
                return Err(e);
            },
        };
        let subjects = csr.subjects();
        let ghost subs = seq![csr@.subject] + csr@.alt_names;
        let mut k: usize = 0;
        while k < subjects.len()
            invariant
                k <= subjects@.len(),
                seqs_view(subjects@) == subs,
                subs == spec_subjects(csr@),
                pem_payload_of(csr_pem@) == Some(csr@.der),
                Some((csr@.subject, csr@.alt_names)) == spec_parse_csr(csr@.der),
                forall|j: int|
                    0 <= j < k ==> zone_known(
                        dns_zones@,
                        spec_canonical_host(self.config@.cname, #[trigger] subs[j]),
                    ),
            decreases subjects@.len() - k,
        {
            let canonical = self.config.canonical_host(subjects[k].as_slice());
            proof {
                assert(subs[k as int] == subjects@[k as int]@);
            }
            match dns_zones.find_zone(canonical.as_slice()) {
                Some(_zone) => {},
                None => {
                    proof {
                        assert(!zone_known(dns_zones@, canonical@)) by {
                            assert(forall|i: int|
                                0 <= i < dns_zones@.len() ==> !dns_zones@[i].contains(canonical@));
                        }
                        let der2 = pem_payload_of(csr_pem@)->Some_0;
                        let names2 = spec_parse_csr(der2)->Some_0;
                        let subs2 = seq![names2.0] + names2.1;
                        assert(der2 == csr@.der);
                        assert(names2 == (csr@.subject, csr@.alt_names));
                        assert(subs2 =~= subs);
                        assert(subs2[k as int] == subs[k as int]);
                        assert(canonical@ == spec_canonical_host(
                            self.config@.cname,
                            subs2[k as int],
                        ));
                        assert forall|j: int| 0 <= j < k implies zone_known(
                            dns_zones@,
                            spec_canonical_host(self.config@.cname, #[trigger] subs2[j]),
                        ) by {
                            assert(subs2[j] == subs[j]);
                        }
                    }
                    return Err(Error::NoDnsZone(canonical));
                },
            }
            k = k + 1;
        }
        let config = self.config.clone_config();
        Ok(AcmeOrder { config, csr })
    }
}

/// Where the order stands.
#[derive(Debug, PartialEq, Eq, Structural)]
pub enum OrderPhase {
    /// Identifiers are to be submitted and authorizations fetched.
    Submitting,
    /// Challenge tasks are being published, verified and marked ready,
    /// one at a time.
    Publishing,
    /// The order status is being polled.
    Validating,
    /// The order is to be finalized with the signing request.
    Finalizing,
    /// The issued certificate is being polled for.
    Polling,
    /// The certificate chain was issued.
    Issued,
    /// The order failed.
    Failed,
}

/// What follows one order-status poll.
#[derive(Debug, PartialEq, Eq)]
pub enum StatusStep {
    /// Proceed to finalization at once.
    Proceed,
    /// Sleep one interval, then proceed to finalization.
    SleepThenProceed,
    /// Sleep one interval, then poll the status again.
    SleepThenRetry,
}

/// The order state machine for one certificate request.
pub struct OrderMachine {
    /// The run configuration.
    pub config: Config,
    /// The parsed signing request.
    pub csr: X509Csr,
    /// The DNS-01 challenge tasks of the order.
    pub tasks: Vec<ChallengeTask>,
    /// How many tasks have been verified and marked ready.
    pub ready: usize,
    /// How many times the order status has been checked.
    pub status_polls: u32,
    /// How many times the certificate has been polled for.
    pub cert_polls: u32,
    /// Where the order stands.
    pub phase: OrderPhase,
}

impl OrderMachine {
    /// The machine's invariant.  In particular: validation,
    /// finalization, certificate polling and issuance are reachable
    /// only with every task marked ready.
    pub open spec fn inv(&self) -> bool {
        &&& self.ready <= self.tasks@.len()
        &&& self.phase is Submitting ==> self.tasks@.len() == 0 && self.ready == 0
        &&& self.phase is Publishing ==> self.ready < self.tasks@.len()
        &&& (self.phase is Validating || self.phase is Finalizing || self.phase is Polling
            || self.phase is Issued) ==> self.ready == self.tasks@.len()
        &&& (self.phase is Submitting || self.phase is Publishing) ==> self.status_polls == 0
        &&& self.phase is Validating ==> self.status_polls < MAX_STATUS_POLLS
        &&& self.phase is Polling ==> self.cert_polls < MAX_CERT_POLLS
    }

    /// The machine reaches `Issued` only with every challenge task
    /// marked ready.
    pub proof fn lemma_issued_all_ready(&self)
        requires
            self.inv(),
            self.phase is Issued,
        ensures
            self.ready == self.tasks@.len(),
    {
    }
}

impl AcmeOrder {
    /// Begin driving the order.
    pub fn start_order(self) -> (m: OrderMachine)
        ensures
            m.inv(),
            m.phase is Submitting,
            m.config@ == self.config@,
            m.csr@ == self.csr@,
    {
        OrderMachine {
            config: self.config,
            csr: self.csr,
            tasks: Vec::new(),
            ready: 0,
            status_polls: 0,
            cert_polls: 0,
            phase: OrderPhase::Submitting,
        }
    }
}

/// The URL of the first DNS-01 offer among `cs`, if any.
fn first_dns01(cs: &Vec<ChallengeOffer>) -> (r: Option<Vec<u8>>)
    ensures
        match r {
            Some(url) => spec_first_dns01(cs@) == Some(url@),
            None => spec_first_dns01(cs@) is None,
        },
{
    let mut i: usize = 0;
    proof {
        assert(cs@.skip(0) =~= cs@);
    }
    while i < cs.len()
        invariant
            i <= cs@.len(),
            spec_first_dns01(cs@) == spec_first_dns01(cs@.skip(i as int)),
        decreases cs@.len() - i,
    {
        proof {
            let rest = cs@.skip(i as int);
            assert(rest[0] == cs@[i as int]);
            assert(rest.skip(1) =~= cs@.skip(i + 1 as int));
        }
        match &cs[i].kind {
            ChallengeKind::Dns01 => {
                return Some(copy_bytes(cs[i].url.as_slice()));
            },
            _ => {},
        }
        i = i + 1;
    }
    proof {
        assert(cs@.skip(cs@.len() as int).len() == 0);
    }
    None
}

impl OrderMachine {
    /// The DNS identifiers to submit for the order: every host of the
    /// signing request, as parsed.
    pub fn identifiers(&self) -> (r: Vec<Vec<u8>>)
        ensures
            seqs_view(r@) == spec_subjects(self.csr@),
    {
        self.csr.subjects()
    }

    /// Take the fetched authorizations.  Each pending one must offer a
    /// DNS-01 challenge; its first such offer becomes a task.  A
    /// pending authorization without one fails the order here, before
    /// anything is published or finalized.  With no tasks at all the
    /// order goes straight to validation.
    pub fn on_authorizations(&mut self, auths: &Vec<AcmeAuthorization>) -> (r: Result<(), Error>)
        requires
            old(self).inv(),
            old(self).phase is Submitting,
        ensures
            final(self).inv(),
            final(self).config == old(self).config,
            final(self).csr == old(self).csr,
            match r {
                Ok(_) => {
                    &&& spec_tasks(auths@) == Some(tasks_view(final(self).tasks@))
                    &&& final(self).ready == 0
                    &&& if final(self).tasks@.len() == 0 {
                        final(self).phase is Validating
                    } else {
                        final(self).phase is Publishing
                    }
                },
                Err(e) => {
                    &&& e == Error::DnsChallengeNotSupported
                    &&& spec_tasks(auths@) is None
                    &&& final(self).phase is Failed
                },
            },
    {
        let mut tasks: Vec<ChallengeTask> = Vec::new();
        let mut i: usize = 0;
        while i < auths.len()
            invariant
                i <= auths@.len(),
                spec_tasks(auths@.subrange(0, i as int)) == Some(tasks_view(tasks@)),
                *self == *old(self),
                old(self).inv(),
                old(self).phase is Submitting,
            decreases auths@.len() - i,
        {
            let a = &auths[i];
            let ghost pre = auths@.subrange(0, i as int);
            let ghost post = auths@.subrange(0, i + 1 as int);
            proof {
                assert(post =~= pre.push(auths@[i as int]));
                assert(post.drop_last() =~= pre);
            }
            match &a.status {
                AuthStatus::Pending => {
                    match first_dns01(&a.challenges) {
                        Some(url) => {
                            let hostname = copy_bytes(a.hostname.as_slice());
                            let ghost tpre = tasks@;
                            tasks.push(ChallengeTask { hostname, challenge_url: url });
                            proof {
                                assert(tasks_view(tasks@) =~= tasks_view(tpre).push(
                                    (tasks@.last().hostname@, tasks@.last().challenge_url@),
                                ));
                            }
                        },
                        None => {
                            proof {
                                lemma_spec_tasks_none(auths@, i as int);
                            }
                            self.phase = OrderPhase::Failed;
                            return Err(Error::DnsChallengeNotSupported);
                        },
                    }
                },
                _ => {},
            }
            i = i + 1;
        }
        proof {
            assert(auths@.subrange(0, auths@.len() as int) =~= auths@);
        }
        if tasks.len() == 0 {
            self.phase = OrderPhase::Validating;
        } else {
            self.phase = OrderPhase::Publishing;
        }
        self.tasks = tasks;
        self.ready = 0;
        Ok(())
    }

    /// The task to publish and verify next.
    pub fn current_challenge(&self) -> (t: &ChallengeTask)
        requires
            self.inv(),
            self.phase is Publishing,
        ensures
            *t == self.tasks@[self.ready as int],
    {
        &self.tasks[self.ready]
    }

    /// The TXT record name that validates `hostname`: the canonical
    /// form of `_acme-challenge.<hostname>` under the CNAME remap.
    pub fn challenge_record_name(&self, hostname: &[u8]) -> (r: Vec<u8>)
        ensures
            r@ == spec_challenge_record(self.config@.cname, hostname@),
    {
        let mut prefix: Vec<u8> = Vec::new();
        prefix.push(95);
        prefix.push(97);
        prefix.push(99);
        prefix.push(109);
        prefix.push(101);
        prefix.push(45);
        prefix.push(99);
        prefix.push(104);
        prefix.push(97);
        prefix.push(108);
        prefix.push(108);
        prefix.push(101);
        prefix.push(110);
        prefix.push(103);
        prefix.push(101);
        prefix.push(46);
        proof {
            assert(prefix@ =~= spec_challenge_prefix());
        }
        let record = concat_bytes(prefix.as_slice(), hostname);
        self.config.canonical_host(record.as_slice())
    }

    /// The current task's challenge has been verified and marked ready
    /// with the server; move to the next task, or to validation when it
    /// was the last.
    pub fn on_challenge_ready(&mut self)
        requires
            old(self).inv(),
            old(self).phase is Publishing,
        ensures
            final(self).inv(),
            final(self).config == old(self).config,
            final(self).csr == old(self).csr,
            final(self).tasks == old(self).tasks,
            final(self).ready == old(self).ready + 1,
            if old(self).ready + 1 == old(self).tasks@.len() {
                final(self).phase is Validating
            } else {
                final(self).phase is Publishing
            },
    {
        let n = self.tasks.len();
        self.ready = self.ready + 1;
        if self.ready == n {
            self.phase = OrderPhase::Validating;
        }
    }

    /// Take one observed order status.  `Ready` and `Valid` proceed to
    /// finalization at once; `Processing` waits one interval and
    /// proceeds; `Pending` retries up to the poll bound and then
    /// proceeds regardless; `Invalid` fails the order.
    pub fn on_order_status(&mut self, status: AcmeOrderStatus) -> (r: Result<StatusStep, Error>)
        requires
            old(self).inv(),
            old(self).phase is Validating,
        ensures
            final(self).inv(),
            final(self).config == old(self).config,
            final(self).csr == old(self).csr,
            final(self).tasks == old(self).tasks,
            final(self).ready == old(self).ready,
            match status {
                AcmeOrderStatus::Ready | AcmeOrderStatus::Valid => r == Ok::<StatusStep, Error>(
                    StatusStep::Proceed,
                ) && final(self).phase is Finalizing,
                AcmeOrderStatus::Processing => r == Ok::<StatusStep, Error>(
                    StatusStep::SleepThenProceed,
                ) && final(self).phase is Finalizing,
                AcmeOrderStatus::Pending => {
                    &&& final(self).status_polls == old(self).status_polls + 1
                    &&& if old(self).status_polls + 1 == MAX_STATUS_POLLS {
                        r == Ok::<StatusStep, Error>(StatusStep::SleepThenProceed)
                            && final(self).phase is Finalizing
                    } else {
                        r == Ok::<StatusStep, Error>(StatusStep::SleepThenRetry)
                            && final(self).phase is Validating
                    }
                },
                AcmeOrderStatus::Invalid => r == Err::<StatusStep, Error>(
                    Error::AcmeChallengeIncomplete,
                ) && final(self).phase is Failed,
            },
    {
        match status {
            AcmeOrderStatus::Ready | AcmeOrderStatus::Valid => {
                self.phase = OrderPhase::Finalizing;
                Ok(StatusStep::Proceed)
            },
            AcmeOrderStatus::Processing => {
                self.phase = OrderPhase::Finalizing;
                Ok(StatusStep::SleepThenProceed)
            },
            AcmeOrderStatus::Pending => {
                self.status_polls = self.status_polls + 1;
                if self.status_polls == MAX_STATUS_POLLS {
                    self.phase = OrderPhase::Finalizing;
                    Ok(StatusStep::SleepThenProceed)
                } else {
                    Ok(StatusStep::SleepThenRetry)
                }
            },
            AcmeOrderStatus::Invalid => {
                self.phase = OrderPhase::Failed;
                Err(Error::AcmeChallengeIncomplete)
            },
        }
    }

    /// The raw DER bytes the order is finalized with.
    pub fn csr_der(&self) -> (r: &[u8])
        ensures
            r@ == self.csr@.der,
    {
        self.csr.der_bytes()
    }

    /// Finalization was requested; start polling for the certificate.
    pub fn on_finalized(&mut self)
        requires
            old(self).inv(),
            old(self).phase is Finalizing,
        ensures
            final(self).inv(),
            final(self).config == old(self).config,
            final(self).csr == old(self).csr,
            final(self).tasks == old(self).tasks,
            final(self).ready == old(self).ready,
            final(self).phase is Polling,
            final(self).cert_polls == 0,
    {
        self.phase = OrderPhase::Polling;
        self.cert_polls = 0;
    }

    /// Take one certificate poll's answer.  The first non-empty
    /// response is decomposed into exactly two PEM blocks and issuance
    /// completes; an empty response is retried after a sleep up to the
    /// poll bound, after which the order fails with a timeout.
    pub fn on_certificate_response(&mut self, pem_bundle: Option<&Vec<u8>>) -> (r: Result<
        Option<AcmeIssuedCertificate>,
        Error,
    >)
        requires
            old(self).inv(),
            old(self).phase is Polling,
        ensures
            final(self).inv(),
            final(self).config == old(self).config,
            final(self).csr == old(self).csr,
            final(self).tasks == old(self).tasks,
            final(self).ready == old(self).ready,
            match pem_bundle {
                Some(bytes) => match r {
                    Ok(Some(cert)) => {
                        &&& cert.wf()
                        &&& pem_blocks_of(bytes@) == Some(blocks_view(cert.crt_pem@))
                        &&& final(self).phase is Issued
                    },
                    Err(e) => {
                        &&& e == Error::CrtPemParse
                        &&& final(self).phase is Failed
                        &&& match pem_blocks_of(bytes@) {
                            None => true,
                            Some(blocks) => blocks.len() != 2,
                        }
                    },
                    Ok(None) => false,
                },
                None => {
                    &&& final(self).cert_polls == old(self).cert_polls + 1
                    &&& if old(self).cert_polls + 1 == MAX_CERT_POLLS {
                        r == Err::<Option<AcmeIssuedCertificate>, Error>(
                            Error::CertificateIssueTimeout,
                        ) && final(self).phase is Failed
                    } else {
                        r == Ok::<Option<AcmeIssuedCertificate>, Error>(None)
                            && final(self).phase is Polling
                    }
                },
            },
    {
        match pem_bundle {
            Some(bytes) => match AcmeIssuedCertificate::from_pem_bundle(bytes.as_slice()) {
                Ok(cert) => {
                    self.phase = OrderPhase::Issued;
                    Ok(Some(cert))
                },
                Err(e) => {
                    self.phase = OrderPhase::Failed;
                    Err(e)
                },
            },
            None => {
                self.cert_polls = self.cert_polls + 1;
                if self.cert_polls == MAX_CERT_POLLS {
                    self.phase = OrderPhase::Failed;
                    Err(Error::CertificateIssueTimeout)
                } else {
                    Ok(None)
                }
            },
        }
    }
}

} // verus!
