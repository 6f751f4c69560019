//! Classification of the certificate output target: a local file path,
//! or an `s3://` URL split into bucket and key.
//!
//! URL parsing is done by the `url` crate behind a named result; the
//! scheme dispatch and the bucket/key extraction are verified.  The
//! writes themselves are I/O and happen outside the library.
use vstd::prelude::*;

use crate::bytestr::{copy_bytes, trim_leading_slashes, trim_leading_slashes_vec};
use crate::Error;

verus! {

/// The `(scheme, host, path)` of `s` when `s` parses as an absolute
/// URL, `None` otherwise.
pub uninterp spec fn url_parse_of(s: Seq<u8>) -> Option<(Seq<u8>, Option<Seq<u8>>, Seq<u8>)>;

/// `s3`
pub open spec fn spec_s3_scheme() -> Seq<u8> {
    seq![115u8, 51u8]
}

/// The parts of a parsed URL the output logic reads.
pub struct UrlParts {
    /// The URL scheme.
    pub scheme: Vec<u8>,
    /// The host, when the URL has one.
    pub host: Option<Vec<u8>>,
    /// The path, with its leading slash.
    pub path: Vec<u8>,
}

/// Relies on `url::Url::parse` and its `scheme`, `host_str` and `path`
/// accessors; a name that is no absolute URL does not parse.
#[verifier::external_body]
fn parse_url(s: &[u8]) -> (r: Option<UrlParts>)
    ensures
        match r {
            Some(p) => url_parse_of(s@) == Some(
                (
                    p.scheme@,
                    match p.host {
                        Some(h) => Some(h@),
                        None => None,
                    },
                    p.path@,
                ),
            ),
            None => url_parse_of(s@) is None,
        },
{
    let text = std::str::from_utf8(s).ok()?;
    let url = url::Url::parse(text).ok()?;
    Some(
        UrlParts {
            scheme: url.scheme().as_bytes().to_vec(),
            host: url.host_str().map(|h| h.as_bytes().to_vec()),
            path: url.path().as_bytes().to_vec(),
        },
    )
}

/// Where an issued certificate goes.
#[derive(Debug, PartialEq, Eq)]
pub enum OutputTarget {
    /// A local file under this path.
    LocalFile(Vec<u8>),
    /// An object under this bucket and key.
    S3Object { bucket: Vec<u8>, key: Vec<u8> },
}

/// Decide where `name` points: a name that is no URL is a local path;
/// an `s3://` URL with a host is an object whose key is the path less
/// its leading slashes; any other URL, or an `s3://` one without a
/// host, is rejected.
pub fn classify_output_target(name: &[u8]) -> (r: Result<OutputTarget, Error>)
    ensures
        match url_parse_of(name@) {
            None => r matches Ok(OutputTarget::LocalFile(p)) && p@ == name@,
            Some(parts) => {
                if parts.0 == spec_s3_scheme() {
                    match parts.1 {
                        Some(h) => r matches Ok(OutputTarget::S3Object { bucket, key })
                            && bucket@ == h && key@ == trim_leading_slashes(parts.2),
                        None => r matches Err(e) && e matches Error::InvalidOutCrtFile(n) && n@
                            == name@,
                    }
                } else {
                    r matches Err(e) && e matches Error::InvalidOutCrtFile(n) && n@ == name@
                }
            },
        },
{
    match parse_url(name) {
        None => Ok(OutputTarget::LocalFile(copy_bytes(name))),
        Some(parts) => {
            let is_s3 = parts.scheme.len() == 2 && parts.scheme[0] == 115 && parts.scheme[1] == 51;
            proof {
                if is_s3 {
                    assert(parts.scheme@ =~= spec_s3_scheme());
                } else {
                    assert(parts.scheme@ != spec_s3_scheme()) by {
                        if parts.scheme@ == spec_s3_scheme() {
                            assert(parts.scheme@.len() == 2);
                            assert(parts.scheme@[0] == 115 && parts.scheme@[1] == 51);
                        }
                    }
                }
            }
            if is_s3 {
                match parts.host {
                    Some(h) => {
                        let key = trim_leading_slashes_vec(parts.path.as_slice());
                        Ok(OutputTarget::S3Object { bucket: h, key })
                    },
                    None => Err(Error::InvalidOutCrtFile(copy_bytes(name))),
                }
            } else {
                Err(Error::InvalidOutCrtFile(copy_bytes(name)))
            }
        },
    }
}

} // verus!
