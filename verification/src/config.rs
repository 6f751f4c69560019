//! Per-run configuration: the certificate requests to serve and the
//! optional hostname remap for CNAME-delegated challenge records.
//!
//! Loading the configuration (TOML file, ACME account credentials) is I/O
//! and happens outside the library; the loader hands over plain values.
use vstd::prelude::*;

use crate::bytestr::bytes_eq;

verus! {

/// The view of a list of `(key, value)` byte-string pairs.
pub open spec fn pairs_view(m: Seq<(Vec<u8>, Vec<u8>)>) -> Seq<(Seq<u8>, Seq<u8>)> {
    m.map_values(|p: (Vec<u8>, Vec<u8>)| (p.0@, p.1@))
}

/// Lookup in a `(key, value)` pair list where a later pair with the same
/// key shadows an earlier one, as inserting into a map in list order would.
pub open spec fn assoc_lookup(m: Seq<(Seq<u8>, Seq<u8>)>, k: Seq<u8>) -> Option<Seq<u8>>
    decreases m.len(),
{
    if m.len() == 0 {
        None
    } else if m.last().0 == k {
        Some(m.last().1)
    } else {
        assoc_lookup(m.drop_last(), k)
    }
}

/// The value `assoc_get` returns for key `k` in the pair list `m`.
pub fn assoc_get<'a>(m: &'a Vec<(Vec<u8>, Vec<u8>)>, k: &[u8]) -> (r: Option<&'a Vec<u8>>)
    ensures
        match r {
            Some(v) => assoc_lookup(pairs_view(m@), k@) == Some(v@),
            None => assoc_lookup(pairs_view(m@), k@) is None,
        },
{
    let mut found: Option<&'a Vec<u8>> = None;
    let mut i: usize = 0;
    while i < m.len()
        invariant
            i <= m@.len(),
            match found {
                Some(v) => assoc_lookup(pairs_view(m@.subrange(0, i as int)), k@) == Some(v@),
                None => assoc_lookup(pairs_view(m@.subrange(0, i as int)), k@) is None,
            },
        decreases m@.len() - i,
    {
        if bytes_eq(m[i].0.as_slice(), k) {
            found = Some(&m[i].1);
        }
        proof {
            let pre = pairs_view(m@.subrange(0, i as int));
            let post = pairs_view(m@.subrange(0, i + 1 as int));
            assert(post =~= pre.push((m@[i as int].0@, m@[i as int].1@)));
            assert(post.drop_last() =~= pre);
        }
        i = i + 1;
    }
    proof {
        assert(m@.subrange(0, m@.len() as int) =~= m@);
    }
    found
}

/// The mathematical model of one certificate request entry.
pub struct CertReqModel {
    /// Path of the PEM-encoded certificate signing request.
    pub csr_file: Seq<u8>,
    /// Local path or `s3://` URL for the issued certificate.
    pub out_crt_file: Seq<u8>,
}

/// One certificate request: where to read the signing request and where
/// to write the issued certificate.
pub struct CertReqConfig {
    /// Path of the PEM-encoded certificate signing request.
    pub csr_file: Vec<u8>,
    /// Local path or `s3://` URL for the issued certificate.
    pub out_crt_file: Vec<u8>,
}

impl View for CertReqConfig {
    type V = CertReqModel;

    open spec fn view(&self) -> CertReqModel {
        CertReqModel { csr_file: self.csr_file@, out_crt_file: self.out_crt_file@ }
    }
}

impl CertReqConfig {
    /// Build a request entry from its two file names.
    pub fn new(csr_file: Vec<u8>, out_crt_file: Vec<u8>) -> (r: CertReqConfig)
        ensures
            r.csr_file@ == csr_file@,
            r.out_crt_file@ == out_crt_file@,
    {
        CertReqConfig { csr_file, out_crt_file }
    }

    /// Path of the PEM-encoded certificate signing request.
    pub fn csr_file_name(&self) -> (r: &Vec<u8>)
        ensures
            r@ == self.csr_file@,
    {
        &self.csr_file
    }

    /// Output target for the issued certificate.
    pub fn crt_file_name(&self) -> (r: &Vec<u8>)
        ensures
            r@ == self.out_crt_file@,
    {
        &self.out_crt_file
    }
}

/// The mathematical model of the run configuration.
pub struct ConfigModel {
    /// Hostname-to-canonical-hostname remap.
    pub cname: Seq<(Seq<u8>, Seq<u8>)>,
    /// The certificate requests of this run.
    pub cert_requests: Seq<CertReqModel>,
}

/// The plain-value part of the run configuration: the hostname remap and
/// the certificate requests.  The ACME account handle stays with the I/O
/// layer that loaded it.
pub struct Config {
    /// Hostname-to-canonical-hostname remap, applied before every zone
    /// lookup and every challenge record name.
    pub cname: Vec<(Vec<u8>, Vec<u8>)>,
    /// The certificate requests of this run.
    pub cert_requests: Vec<CertReqConfig>,
}

impl View for Config {
    type V = ConfigModel;

    open spec fn view(&self) -> ConfigModel {
        ConfigModel {
            cname: pairs_view(self.cname@),
            cert_requests: self.cert_requests@.map_values(|c: CertReqConfig| c@),
        }
    }
}

/// The canonical form of `h` under the remap `cname`: the mapped name if
/// one is configured, otherwise `h` itself.
pub open spec fn spec_canonical_host(cname: Seq<(Seq<u8>, Seq<u8>)>, h: Seq<u8>) -> Seq<u8> {
    match assoc_lookup(cname, h) {
        Some(c) => c,
        None => h,
    }
}

impl Config {
    /// Assemble a configuration from its plain values.
    pub fn new(cname: Vec<(Vec<u8>, Vec<u8>)>, cert_requests: Vec<CertReqConfig>) -> (r: Config)
        ensures
            r@.cname == pairs_view(cname@),
            r.cert_requests@ == cert_requests@,
    {
        Config { cname, cert_requests }
    }

    /// The certificate requests of this run.
    pub fn certificate_requests(&self) -> (r: &Vec<CertReqConfig>)
        ensures
            r@ == self.cert_requests@,
    {
        &self.cert_requests
    }

    /// Apply the CNAME remap to one hostname.
    pub fn canonical_host(&self, hostname: &[u8]) -> (r: Vec<u8>)
        ensures
            r@ == spec_canonical_host(self@.cname, hostname@),
    {
        match assoc_get(&self.cname, hostname) {
            Some(c) => crate::bytestr::copy_bytes(c.as_slice()),
            None => crate::bytestr::copy_bytes(hostname),
        }
    }

    /// A structural copy of the configuration.
    pub fn clone_config(&self) -> (r: Config)
        ensures
            r@ == self@,
    {
        let mut cname: Vec<(Vec<u8>, Vec<u8>)> = Vec::new();
        let mut i: usize = 0;
        while i < self.cname.len()
            invariant
                i <= self.cname@.len(),
                pairs_view(cname@) == pairs_view(self.cname@.subrange(0, i as int)),
            decreases self.cname@.len() - i,
        {
            let k = crate::bytestr::copy_bytes(self.cname[i].0.as_slice());
            let v = crate::bytestr::copy_bytes(self.cname[i].1.as_slice());
            let ghost pre = cname@;
            cname.push((k, v));
            proof {
                let spre = self.cname@.subrange(0, i as int);
                let spost = self.cname@.subrange(0, i + 1 as int);
                assert(spost =~= spre.push(self.cname@[i as int]));
                assert(pairs_view(spost) =~= pairs_view(spre).push(
                    (self.cname@[i as int].0@, self.cname@[i as int].1@),
                ));
                assert(pairs_view(cname@) =~= pairs_view(pre).push(
                    (cname@.last().0@, cname@.last().1@),
                ));
                assert(pairs_view(cname@) =~= pairs_view(spost));
            }
            i = i + 1;
        }
        let mut cert_requests: Vec<CertReqConfig> = Vec::new();
        let mut j: usize = 0;
        while j < self.cert_requests.len()
            invariant
                j <= self.cert_requests@.len(),
                cert_requests@.len() == j,
                forall|k: int|
                    0 <= k < j ==> (#[trigger] cert_requests@[k])@ == self.cert_requests@[k]@,
            decreases self.cert_requests@.len() - j,
        {
            let c = CertReqConfig {
                csr_file: crate::bytestr::copy_bytes(self.cert_requests[j].csr_file.as_slice()),
                out_crt_file: crate::bytestr::copy_bytes(
                    self.cert_requests[j].out_crt_file.as_slice(),
                ),
            };
            cert_requests.push(c);
            j = j + 1;
        }
        let r = Config { cname, cert_requests };
        proof {
            assert(self.cname@.subrange(0, self.cname@.len() as int) =~= self.cname@);
            assert(r@.cert_requests =~= self@.cert_requests) by {
                assert forall|k: int| 0 <= k < self.cert_requests@.len() implies r@.cert_requests[k]
                    == self@.cert_requests[k] by {
                    assert(cert_requests@[k]@ == self.cert_requests@[k]@);
                }
            }
        }
        r
    }
}

} // verus!
