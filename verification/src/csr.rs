//! Certificate signing request inspection: the primary subject and the
//! subject-alternative-name hosts of a PKCS#10 request, lower-cased for
//! case-insensitive matching, together with the raw DER bytes kept for
//! order finalization.
//!
//! The PEM envelope and the DER structure are decoded by `x509_parser`;
//! what those decoders yield is named here and everything after them is
//! verified.
use vstd::prelude::*;

use x509_parser::prelude::FromDer;

use crate::bytestr::{is_lower, lemma_lower_idempotent, lower, seqs_view, to_lower_vec};
use crate::Error;

verus! {

/// The DER payload of the first PEM block of `bytes`, when `bytes` is
/// well-formed PEM.
pub uninterp spec fn pem_payload_of(bytes: Seq<u8>) -> Option<Seq<u8>>;

/// The subject common name and the SAN DNS names of `der`, when `der`
/// is a well-formed certification request whose common name decodes as
/// a string.  Names are as encoded, not yet lower-cased.
pub uninterp spec fn csr_fields_of(der: Seq<u8>) -> Option<(Seq<u8>, Seq<Seq<u8>>)>;

/// Relies on `x509_parser::pem::parse_x509_pem` to decode the first PEM
/// block of a buffer into its DER payload.
#[verifier::external_body]
fn pem_decode(bytes: &[u8]) -> (r: Option<Vec<u8>>)
    ensures
        match r {
            Some(der) => pem_payload_of(bytes@) == Some(der@),
            None => pem_payload_of(bytes@) is None,
        },
{
    match x509_parser::pem::parse_x509_pem(bytes) {
        Ok((_rem, pem)) => Some(pem.contents),
        Err(_) => None,
    }
}

/// Relies on `x509_parser::certification_request::X509CertificationRequest::from_der`
/// for the PKCS#10 structure, on `X509Name::iter_common_name` for the
/// first common name, and on the parsed extension-request attribute for
/// the SAN DNS-name entries; SAN entries of other kinds are ignored.
#[verifier::external_body]
fn csr_fields(der: &[u8]) -> (r: Option<(Vec<u8>, Vec<Vec<u8>>)>)
    ensures
        match r {
            Some(f) => csr_fields_of(der@) == Some((f.0@, seqs_view(f.1@))),
            None => csr_fields_of(der@) is None,
        },
{
    let (_rem, csr) =
        x509_parser::certification_request::X509CertificationRequest::from_der(der).ok()?;
    let cn = csr.certification_request_info.subject.iter_common_name().next()?.as_str().ok()?;
    let mut sans: Vec<Vec<u8>> = Vec::new();
    for ext in csr.requested_extensions().into_iter().flatten() {
        if let x509_parser::extensions::ParsedExtension::SubjectAlternativeName(sa) = ext {
            for gn in &sa.general_names {
                if let x509_parser::extensions::GeneralName::DNSName(d) = gn {
                    sans.push(d.as_bytes().to_vec())
                }
            }
        }
    }
    Some((cn.as_bytes().to_vec(), sans))
}

/// The mathematical model of a parsed signing request.
pub struct CsrModel {
    /// The raw DER bytes, kept for order finalization.
    pub der: Seq<u8>,
    /// The lower-cased subject common name.
    pub subject: Seq<u8>,
    /// The lower-cased SAN DNS names, in encoding order.
    pub alt_names: Seq<Seq<u8>>,
}

/// A parsed certificate signing request.
pub struct X509Csr {
    /// The raw DER bytes, kept for order finalization.
    pub der_bytes: Vec<u8>,
    /// The lower-cased subject common name.
    pub subject: Vec<u8>,
    /// The lower-cased SAN DNS names, in encoding order.
    pub alt_names: Vec<Vec<u8>>,
}

impl View for X509Csr {
    type V = CsrModel;

    open spec fn view(&self) -> CsrModel {
        CsrModel {
            der: self.der_bytes@,
            subject: self.subject@,
            alt_names: seqs_view(self.alt_names@),
        }
    }
}

/// The names a successful parse of `der` yields: the decoded common
/// name and SAN DNS names, each lower-cased.
pub open spec fn spec_parse_csr(der: Seq<u8>) -> Option<(Seq<u8>, Seq<Seq<u8>>)> {
    match csr_fields_of(der) {
        Some(f) => Some((lower(f.0), f.1.map_values(|s: Seq<u8>| lower(s)))),
        None => None,
    }
}

/// Parsing equal bytes yields equal names: the parse is a function of
/// the bytes alone.
pub proof fn lemma_csr_parse_deterministic(
    der: Seq<u8>,
    n1: (Seq<u8>, Seq<Seq<u8>>),
    n2: (Seq<u8>, Seq<Seq<u8>>),
)
    requires
        spec_parse_csr(der) == Some(n1),
        spec_parse_csr(der) == Some(n2),
    ensures
        n1 == n2,
{
}

/// Every name a successful parse yields is lower-cased.
pub proof fn lemma_csr_parse_lowercases(der: Seq<u8>, subject: Seq<u8>, alt_names: Seq<Seq<u8>>)
    requires
        spec_parse_csr(der) == Some((subject, alt_names)),
    ensures
        is_lower(subject),
        forall|i: int| 0 <= i < alt_names.len() ==> is_lower(#[trigger] alt_names[i]),
{
    let f = csr_fields_of(der)->Some_0;
    lemma_lower_idempotent(f.0);
    assert forall|i: int| 0 <= i < alt_names.len() implies is_lower(#[trigger] alt_names[i]) by {
        assert(alt_names[i] == lower(f.1[i]));
        lemma_lower_idempotent(f.1[i]);
    }
}

impl X509Csr {
    /// Parse a DER-encoded certification request; succeeds exactly when
    /// the structure parses with a string common name.
    pub fn from_der_bytes(der: Vec<u8>) -> (r: Result<X509Csr, Error>)
        ensures
            match r {
                Ok(c) => c@.der == der@ && Some((c@.subject, c@.alt_names)) == spec_parse_csr(
                    der@,
                ),
                Err(e) => csr_fields_of(der@) is None && e == Error::CsrParse,
            },
    {
        match csr_fields(der.as_slice()) {
            None => Err(Error::CsrParse),
            Some((cn, sans)) => {
                let subject = to_lower_vec(cn.as_slice());
                let mut alt_names: Vec<Vec<u8>> = Vec::new();
                let mut i: usize = 0;
                while i < sans.len()
                    invariant
                        i <= sans@.len(),
                        alt_names@.len() == i,
                        forall|j: int|
                            0 <= j < i ==> (#[trigger] alt_names@[j])@ == lower(sans@[j]@),
                    decreases sans@.len() - i,
                {
                    let lowered = to_lower_vec(sans[i].as_slice());
                    alt_names.push(lowered);
                    i = i + 1;
                }
                proof {
                    let f = csr_fields_of(der@)->Some_0;
                    assert(seqs_view(alt_names@) =~= f.1.map_values(|s: Seq<u8>| lower(s))) by {
                        assert forall|j: int| 0 <= j < sans@.len() implies seqs_view(alt_names@)[j]
                            == lower(f.1[j]) by {
                            assert(f.1[j] == seqs_view(sans@)[j]);
                            assert(seqs_view(alt_names@)[j] == alt_names@[j]@);
                        }
                    }
                }
                Ok(X509Csr { der_bytes: der, subject, alt_names })
            },
        }
    }

    /// Parse a PEM-encoded certification request: decode the envelope,
    /// then the DER payload.
    pub fn from_pem_bytes(bytes: &[u8]) -> (r: Result<X509Csr, Error>)
        ensures
            match r {
                Ok(c) => {
                    &&& pem_payload_of(bytes@) == Some(c@.der)
                    &&& Some((c@.subject, c@.alt_names)) == spec_parse_csr(c@.der)
                },
                Err(e) => match pem_payload_of(bytes@) {
                    None => e == Error::CsrPemParse,
                    Some(der) => csr_fields_of(der) is None && e == Error::CsrParse,
                },
            },
    {
        match pem_decode(bytes) {
            None => Err(Error::CsrPemParse),
            Some(der) => X509Csr::from_der_bytes(der),
        }
    }

    /// All hosts this request asks a certificate for: the subject first,
    /// then the alternative names in order.
    pub fn subjects(&self) -> (r: Vec<Vec<u8>>)
        ensures
            seqs_view(r@) == seq![self@.subject] + self@.alt_names,
    {
        let mut r: Vec<Vec<u8>> = Vec::new();
        r.push(crate::bytestr::copy_bytes(self.subject.as_slice()));
        let mut i: usize = 0;
        while i < self.alt_names.len()
            invariant
                i <= self.alt_names@.len(),
                r@.len() == i + 1,
                r@[0]@ == self.subject@,
                forall|j: int|
                    0 <= j < i ==> (#[trigger] r@[j + 1])@ == self.alt_names@[j]@,
            decreases self.alt_names@.len() - i,
    {
            let a = crate::bytestr::copy_bytes(self.alt_names[i].as_slice());
            r.push(a);
            i = i + 1;
        }
        proof {
            assert(seqs_view(r@) =~= seq![self@.subject] + self@.alt_names) by {
                assert forall|j: int| 0 <= j < r@.len() implies seqs_view(r@)[j] == (seq![
                    self@.subject,
                ] + self@.alt_names)[j] by {
                    assert(seqs_view(r@)[j] == r@[j]@);
                    if j > 0 {
                        assert(r@[(j - 1) + 1]@ == self.alt_names@[j - 1]@);
                        assert(self@.alt_names[j - 1] == self.alt_names@[j - 1]@);
                    }
                }
            }
        }
        r
    }

    /// The raw DER bytes of the request.
    pub fn der_bytes(&self) -> (r: &[u8])
        ensures
            r@ == self@.der,
    {
        self.der_bytes.as_slice()
    }
}

} // verus!
