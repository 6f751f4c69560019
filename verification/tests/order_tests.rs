//! The ACME order state machine.
use acme_client_route53::acme::{
    AcmeAuthorization, AcmeOrder, AcmeOrderStatus, AuthStatus, ChallengeKind, ChallengeOffer,
    OrderMachine, StatusStep,
};
use acme_client_route53::config::{CertReqConfig, Config};
use acme_client_route53::csr::X509Csr;
use acme_client_route53::zones::{AllDnsZones, DnsZone};
use acme_client_route53::Error;

fn config_with_cname(pairs: &[(&str, &str)]) -> Config {
    Config::new(
        pairs
            .iter()
            .map(|(k, v)| (k.as_bytes().to_vec(), v.as_bytes().to_vec()))
            .collect(),
        vec![CertReqConfig::new(b"req.csr".to_vec(), b"out.crt".to_vec())],
    )
}

fn machine_for(subject: &str, alt_names: &[&str]) -> OrderMachine {
    let csr = X509Csr {
        der_bytes: b"der-bytes".to_vec(),
        subject: subject.as_bytes().to_vec(),
        alt_names: alt_names.iter().map(|s| s.as_bytes().to_vec()).collect(),
    };
    let order = AcmeOrder { config: config_with_cname(&[]), csr };
    order.start_order()
}

fn dns01(url: &str) -> ChallengeOffer {
    ChallengeOffer { kind: ChallengeKind::Dns01, url: url.as_bytes().to_vec() }
}

fn http01(url: &str) -> ChallengeOffer {
    ChallengeOffer { kind: ChallengeKind::Http01, url: url.as_bytes().to_vec() }
}

fn auth(hostname: &str, status: AuthStatus, challenges: Vec<ChallengeOffer>) -> AcmeAuthorization {
    AcmeAuthorization { hostname: hostname.as_bytes().to_vec(), status, challenges }
}

fn pem_block(label: &str, b64: &str) -> String {
    format!("-----BEGIN {}-----\n{}\n-----END {}-----\n", label, b64, label)
}

#[test]
fn order_reaches_issued_after_every_challenge_is_ready() {
    let mut m = machine_for("www.example.com", &["alt1.example.com"]);
    let ids = m.identifiers();
    assert_eq!(ids.len(), 2);
    assert_eq!(ids[0], b"www.example.com".to_vec());

    let auths = vec![
        auth("www.example.com", AuthStatus::Pending, vec![http01("u1"), dns01("u2")]),
        auth("alt1.example.com", AuthStatus::Valid, vec![dns01("u3")]),
        auth("alt2.example.com", AuthStatus::Pending, vec![dns01("u4")]),
    ];
    m.on_authorizations(&auths).unwrap();
    // The valid authorization is skipped; two tasks remain, and the
    // first pending one picks its first DNS-01 offer.
    assert_eq!(m.tasks.len(), 2);
    let t = m.current_challenge();
    assert_eq!(t.hostname, b"www.example.com".to_vec());
    assert_eq!(t.challenge_url, b"u2".to_vec());
    m.on_challenge_ready();
    let t = m.current_challenge();
    assert_eq!(t.hostname, b"alt2.example.com".to_vec());
    assert_eq!(t.challenge_url, b"u4".to_vec());
    m.on_challenge_ready();

    assert_eq!(m.ready, 2);
    assert_eq!(m.on_order_status(AcmeOrderStatus::Ready).unwrap(), StatusStep::Proceed);
    assert_eq!(m.csr_der(), b"der-bytes");
    m.on_finalized();

    assert!(matches!(m.on_certificate_response(None), Ok(None)));
    let bundle = format!("{}{}", pem_block("CERTIFICATE", "aGVsbG8="), pem_block("CERTIFICATE", "AAAA"));
    let cert = m
        .on_certificate_response(Some(&bundle.into_bytes()))
        .unwrap()
        .unwrap();
    assert_eq!(cert.crt_pem.len(), 2);
    assert_eq!(cert.crt_pem[0].contents, b"hello".to_vec());
    assert_eq!(cert.crt_pem[1].contents, vec![0u8, 0, 0]);
}

#[test]
fn missing_dns01_offer_fails_before_anything_is_published() {
    let mut m = machine_for("www.example.com", &[]);
    let auths = vec![
        auth("www.example.com", AuthStatus::Pending, vec![dns01("u1")]),
        auth("alt.example.com", AuthStatus::Pending, vec![http01("u2")]),
    ];
    let r = m.on_authorizations(&auths);
    assert!(matches!(r, Err(Error::DnsChallengeNotSupported)));
}

#[test]
fn no_pending_authorizations_skip_straight_to_validation() {
    let mut m = machine_for("www.example.com", &[]);
    let auths = vec![auth("www.example.com", AuthStatus::Valid, vec![])];
    m.on_authorizations(&auths).unwrap();
    assert!(m.tasks.is_empty());
    // The status poll is already available.
    assert_eq!(m.on_order_status(AcmeOrderStatus::Valid).unwrap(), StatusStep::Proceed);
}

#[test]
fn processing_status_waits_once_then_proceeds() {
    let mut m = machine_for("www.example.com", &[]);
    let no_auths: Vec<AcmeAuthorization> = vec![];
    m.on_authorizations(&no_auths).unwrap();
    assert_eq!(
        m.on_order_status(AcmeOrderStatus::Processing).unwrap(),
        StatusStep::SleepThenProceed
    );
}

#[test]
fn pending_status_retries_then_proceeds_regardless() {
    let mut m = machine_for("www.example.com", &[]);
    let no_auths: Vec<AcmeAuthorization> = vec![];
    m.on_authorizations(&no_auths).unwrap();
    assert_eq!(
        m.on_order_status(AcmeOrderStatus::Pending).unwrap(),
        StatusStep::SleepThenRetry
    );
    assert_eq!(
        m.on_order_status(AcmeOrderStatus::Pending).unwrap(),
        StatusStep::SleepThenRetry
    );
    assert_eq!(
        m.on_order_status(AcmeOrderStatus::Pending).unwrap(),
        StatusStep::SleepThenProceed
    );
}

#[test]
fn invalid_status_is_an_incomplete_challenge_error() {
    let mut m = machine_for("www.example.com", &[]);
    let no_auths: Vec<AcmeAuthorization> = vec![];
    m.on_authorizations(&no_auths).unwrap();
    let r = m.on_order_status(AcmeOrderStatus::Invalid);
    assert!(matches!(r, Err(Error::AcmeChallengeIncomplete)));
}

#[test]
fn certificate_poll_times_out_after_twelve_attempts() {
    let mut m = machine_for("www.example.com", &[]);
    let no_auths: Vec<AcmeAuthorization> = vec![];
    m.on_authorizations(&no_auths).unwrap();
    m.on_order_status(AcmeOrderStatus::Ready).unwrap();
    m.on_finalized();
    for _ in 0..11 {
        assert!(matches!(m.on_certificate_response(None), Ok(None)));
    }
    let r = m.on_certificate_response(None);
    assert!(matches!(r, Err(Error::CertificateIssueTimeout)));
}

#[test]
fn one_block_bundle_is_rejected() {
    let mut m = machine_for("www.example.com", &[]);
    let no_auths: Vec<AcmeAuthorization> = vec![];
    m.on_authorizations(&no_auths).unwrap();
    m.on_order_status(AcmeOrderStatus::Ready).unwrap();
    m.on_finalized();
    let bundle = pem_block("CERTIFICATE", "AAAA").into_bytes();
    let r = m.on_certificate_response(Some(&bundle));
    assert!(matches!(r, Err(Error::CrtPemParse)));
}

#[test]
fn challenge_record_name_applies_prefix_and_remap() {
    let config = config_with_cname(&[(
        "_acme-challenge.www.example.com",
        "_acme-challenge.delegated.example.net",
    )]);
    let csr = X509Csr {
        der_bytes: vec![],
        subject: b"www.example.com".to_vec(),
        alt_names: vec![],
    };
    let m = AcmeOrder { config, csr }.start_order();
    assert_eq!(
        m.challenge_record_name(b"www.example.com"),
        b"_acme-challenge.delegated.example.net".to_vec()
    );
    assert_eq!(
        m.challenge_record_name(b"other.example.com"),
        b"_acme-challenge.other.example.com".to_vec()
    );
}

#[test]
fn load_and_check_csr_rejects_bad_pem() {
    let zones = AllDnsZones::load(
        vec![DnsZone::Lightsail {
            domain_name: b"example.com".to_vec(),
            txt_record_ids: vec![],
        }],
        vec![],
    );
    let builder = AcmeOrder::new(
        config_with_cname(&[]),
        CertReqConfig::new(b"req.csr".to_vec(), b"out.crt".to_vec()),
    )
    .unwrap();
    let r = builder.load_and_check_csr(b"not pem at all", &zones);
    assert!(matches!(r, Err(Error::CsrPemParse)));
}
