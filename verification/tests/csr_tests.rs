//! Certificate signing request parsing, and the pre-flight zone check.
use acme_client_route53::acme::AcmeOrder;
use acme_client_route53::config::{CertReqConfig, Config};
use acme_client_route53::csr::X509Csr;
use acme_client_route53::zones::{AllDnsZones, DnsZone};
use acme_client_route53::Error;

use base64::engine::Engine;

/// One DER TLV with short- or two-byte length encoding.
fn der(tag: u8, content: &[u8]) -> Vec<u8> {
    let mut v = vec![tag];
    let n = content.len();
    if n < 128 {
        v.push(n as u8);
    } else {
        assert!(n < 256);
        v.push(0x81);
        v.push(n as u8);
    }
    v.extend_from_slice(content);
    v
}

fn concat(parts: &[Vec<u8>]) -> Vec<u8> {
    let mut v = Vec::new();
    for p in parts {
        v.extend_from_slice(p);
    }
    v
}

/// A minimal PKCS#10 structure with the given common name and SAN DNS
/// names.  The key and signature are placeholders; the parser reads the
/// structure, not the cryptography.
fn build_csr_der(common_name: &str, sans: &[&str]) -> Vec<u8> {
    let oid_cn = der(0x06, &[0x55, 0x04, 0x03]);
    let oid_rsa = der(0x06, &[0x2A, 0x86, 0x48, 0x86, 0xF7, 0x0D, 0x01, 0x01, 0x01]);
    let oid_ext_req = der(0x06, &[0x2A, 0x86, 0x48, 0x86, 0xF7, 0x0D, 0x01, 0x09, 0x0E]);
    let oid_san = der(0x06, &[0x55, 0x1D, 0x11]);

    let atv = der(0x30, &concat(&[oid_cn, der(0x0C, common_name.as_bytes())]));
    let rdn = der(0x31, &atv);
    let name = der(0x30, &rdn);

    let alg = der(0x30, &concat(&[oid_rsa.clone(), der(0x05, &[])]));
    let spki = der(0x30, &concat(&[alg.clone(), der(0x03, &[0x00, 0x01, 0x02, 0x03])]));

    let san_entries: Vec<Vec<u8>> = sans.iter().map(|s| der(0x82, s.as_bytes())).collect();
    let san_value = der(0x30, &concat(&san_entries));
    let ext = der(0x30, &concat(&[oid_san, der(0x04, &san_value)]));
    let ext_seq = der(0x30, &ext);
    let attr = der(0x30, &concat(&[oid_ext_req, der(0x31, &ext_seq)]));
    let attrs = der(0xA0, &attr);

    let version = der(0x02, &[0x00]);
    let cri = der(0x30, &concat(&[version, name, spki, attrs]));
    let signature = der(0x03, &[0x00, 0xAA, 0xBB]);
    der(0x30, &concat(&[cri, alg, signature]))
}

/// Wrap DER bytes in a PEM envelope.
fn to_pem(der_bytes: &[u8], label: &str) -> Vec<u8> {
    let b64 = base64::engine::general_purpose::STANDARD.encode(der_bytes);
    let mut text = String::new();
    text.push_str(&format!("-----BEGIN {}-----\n", label));
    for chunk in b64.as_bytes().chunks(64) {
        text.push_str(std::str::from_utf8(chunk).unwrap());
        text.push('\n');
    }
    text.push_str(&format!("-----END {}-----\n", label));
    text.into_bytes()
}

#[test]
fn csr_decode_test() {
    let der_bytes = build_csr_der("www.example.com", &["alt1.example.com", "alt2.example.com"]);
    let pem = to_pem(&der_bytes, "CERTIFICATE REQUEST");
    let csr = X509Csr::from_pem_bytes(&pem).unwrap();
    let subjects = csr.subjects();
    let subjects: Vec<&str> = subjects
        .iter()
        .map(|s| std::str::from_utf8(s).unwrap())
        .collect();
    assert_eq!(
        subjects.as_slice(),
        ["www.example.com", "alt1.example.com", "alt2.example.com",]
    );
}

#[test]
fn csr_parse_lowercases_names() {
    let der_bytes = build_csr_der("WWW.Example.COM", &["Alt1.Example.Com"]);
    let csr = X509Csr::from_der_bytes(der_bytes).unwrap();
    assert_eq!(csr.subject, b"www.example.com".to_vec());
    assert_eq!(csr.alt_names, vec![b"alt1.example.com".to_vec()]);
}

#[test]
fn csr_parse_is_idempotent() {
    let der_bytes = build_csr_der("WWW.Example.COM", &["alt1.example.com"]);
    let a = X509Csr::from_der_bytes(der_bytes.clone()).unwrap();
    let b = X509Csr::from_der_bytes(der_bytes.clone()).unwrap();
    assert_eq!(a.subject, b.subject);
    assert_eq!(a.alt_names, b.alt_names);
    assert_eq!(a.der_bytes(), der_bytes.as_slice());
    assert_eq!(a.subject, b"www.example.com".to_vec());
    assert_eq!(a.alt_names, vec![b"alt1.example.com".to_vec()]);
}

#[test]
fn csr_without_san_extension_has_no_alt_names() {
    let der_bytes = build_csr_der("www.example.com", &[]);
    let csr = X509Csr::from_der_bytes(der_bytes).unwrap();
    assert_eq!(csr.subject, b"www.example.com".to_vec());
    assert!(csr.alt_names.is_empty());
}

fn builder() -> acme_client_route53::acme::AcmeOrderBuilder {
    AcmeOrder::new(
        Config::new(vec![], vec![]),
        CertReqConfig::new(b"req.csr".to_vec(), b"out.crt".to_vec()),
    )
    .unwrap()
}

fn zones_for(domains: &[&str]) -> AllDnsZones {
    AllDnsZones::load(
        domains
            .iter()
            .map(|d| DnsZone::Lightsail {
                domain_name: d.as_bytes().to_vec(),
                txt_record_ids: vec![],
            })
            .collect(),
        vec![],
    )
}

#[test]
fn load_and_check_csr_accepts_fully_owned_requests() {
    let pem = to_pem(
        &build_csr_der("www.example.com", &["alt1.example.com"]),
        "CERTIFICATE REQUEST",
    );
    let zones = zones_for(&["example.com"]);
    let order = builder().load_and_check_csr(&pem, &zones).unwrap();
    assert_eq!(order.csr.subject, b"www.example.com".to_vec());
}

#[test]
fn load_and_check_csr_fails_fast_on_unowned_host() {
    let pem = to_pem(
        &build_csr_der("www.example.com", &["alt1.other.org"]),
        "CERTIFICATE REQUEST",
    );
    let zones = zones_for(&["example.com"]);
    match builder().load_and_check_csr(&pem, &zones) {
        Err(Error::NoDnsZone(h)) => assert_eq!(h, b"alt1.other.org".to_vec()),
        _ => unreachable!(),
    }
}

#[test]
fn bad_pem_is_a_pem_parse_error() {
    let r = X509Csr::from_pem_bytes(b"this is not pem");
    assert!(matches!(r, Err(Error::CsrPemParse)));
}

#[test]
fn bad_der_is_a_csr_parse_error() {
    let pem = to_pem(b"not a certification request", "CERTIFICATE REQUEST");
    let r = X509Csr::from_pem_bytes(&pem);
    assert!(matches!(r, Err(Error::CsrParse)));
    let r2 = X509Csr::from_der_bytes(b"garbage".to_vec());
    assert!(matches!(r2, Err(Error::CsrParse)));
}
