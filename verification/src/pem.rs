//! The issued certificate bundle: decomposition of the ACME server's
//! PEM response into exactly a leaf and an issuer block, and rendering
//! a block back to PEM text.
//!
//! Splitting the bundle into blocks and base64-encoding contents are
//! done by outside decoders whose results are named here; the
//! two-block requirement, the 48-byte line wrapping and the PEM framing
//! are verified.
use vstd::prelude::*;

use base64::engine::Engine;

use crate::bytestr::{copy_bytes, copy_range};
use crate::Error;

verus! {

/// ASCII code of `'\n'`.
pub const NEWLINE: u8 = 10;

/// ASCII code of `'-'`.
pub const DASH: u8 = 45;

/// Bytes of raw content per rendered base64 line; 48 bytes encode to
/// 64 characters.
pub const PEM_LINE_BYTES: usize = 48;

/// The `(label, DER contents)` of every PEM block in `bytes`, in order,
/// when each block present decodes; `None` when some block is invalid.
pub uninterp spec fn pem_blocks_of(bytes: Seq<u8>) -> Option<Seq<(Seq<u8>, Seq<u8>)>>;

/// The standard (padded) base64 encoding of `bytes`.
pub uninterp spec fn base64_of(bytes: Seq<u8>) -> Seq<u8>;

/// One PEM block: its label and its decoded contents.
pub struct PemBlock {
    /// The PEM label, such as `CERTIFICATE`.
    pub label: Vec<u8>,
    /// The decoded (DER) contents.
    pub contents: Vec<u8>,
}

/// The views of a block list.
pub open spec fn blocks_view(blocks: Seq<PemBlock>) -> Seq<(Seq<u8>, Seq<u8>)> {
    blocks.map_values(|b: PemBlock| (b.label@, b.contents@))
}

/// Relies on `x509_parser::pem::Pem::iter_from_buffer` to split a
/// buffer into its PEM blocks and decode each one's base64 contents.
#[verifier::external_body]
fn pem_blocks(bytes: &[u8]) -> (r: Option<Vec<PemBlock>>)
    ensures
        match r {
            Some(blocks) => pem_blocks_of(bytes@) == Some(blocks_view(blocks@)),
            None => pem_blocks_of(bytes@) is None,
        },
{
    let mut out: Vec<PemBlock> = Vec::new();
    for item in x509_parser::pem::Pem::iter_from_buffer(bytes) {
        match item {
            Ok(p) => out.push(PemBlock { label: p.label.into_bytes(), contents: p.contents }),
            Err(_) => {
                return None;
            },
        }
    }
    Some(out)
}

/// Relies on base64's standard padded engine: the encoding is a
/// function of the input bytes alone, and a padded encoding of `n`
/// bytes has exactly `4 * ceil(n / 3)` characters.
#[verifier::external_body]
fn b64_encode(bytes: &[u8]) -> (r: Vec<u8>)
    requires
        4 * ((bytes@.len() + 2) / 3) <= usize::MAX,
    ensures
        r@ == base64_of(bytes@),
        r@.len() == 4 * ((bytes@.len() + 2) / 3),
{
    base64::engine::general_purpose::STANDARD.encode(bytes).into_bytes()
}

/// The base64 content lines of `contents`: 48-byte chunks, each
/// encoded, joined by newlines.
pub open spec fn spec_b64_lines(contents: Seq<u8>) -> Seq<u8>
    decreases contents.len(),
{
    if contents.len() == 0 {
        Seq::empty()
    } else if contents.len() <= PEM_LINE_BYTES {
        base64_of(contents)
    } else {
        base64_of(contents.take(PEM_LINE_BYTES as int)) + seq![NEWLINE] + spec_b64_lines(
            contents.skip(PEM_LINE_BYTES as int),
        )
    }
}

/// `-----`
pub open spec fn spec_five_dashes() -> Seq<u8> {
    seq![DASH, DASH, DASH, DASH, DASH]
}

/// `-----BEGIN `
pub open spec fn spec_begin_prefix() -> Seq<u8> {
    spec_five_dashes() + seq![66u8, 69u8, 71u8, 73u8, 78u8, 32u8]
}

/// `-----END `
pub open spec fn spec_end_prefix() -> Seq<u8> {
    spec_five_dashes() + seq![69u8, 78u8, 68u8, 32u8]
}

/// The PEM text of one block: begin line, wrapped base64 content, end
/// line, and a trailing blank line.
pub open spec fn spec_pem_render(label: Seq<u8>, contents: Seq<u8>) -> Seq<u8> {
    spec_begin_prefix() + label + spec_five_dashes() + seq![NEWLINE] + spec_b64_lines(contents)
        + seq![NEWLINE] + spec_end_prefix() + label + spec_five_dashes() + seq![
        NEWLINE,
        NEWLINE,
    ]
}

/// The wrapped base64 content lines of `contents`.
fn b64_wrapped_lines(contents: &[u8]) -> (r: Vec<u8>)
    ensures
        r@ == spec_b64_lines(contents@),
{
    let mut out: Vec<u8> = Vec::new();
    if contents.len() == 0 {
        return out;
    }
    let mut off: usize = 0;
    proof {
        assert(contents@.skip(0) =~= contents@);
    }
    while contents.len() - off > PEM_LINE_BYTES
        invariant
            off < contents@.len(),
            out@ + spec_b64_lines(contents@.skip(off as int)) == spec_b64_lines(contents@),
        decreases contents@.len() - off,
    {
        let chunk = copy_range(contents, off, off + PEM_LINE_BYTES);
        let mut enc = b64_encode(chunk.as_slice());
        out.append(&mut enc);
        out.push(NEWLINE);
        proof {
            let rem = contents@.skip(off as int);
            assert(rem.take(PEM_LINE_BYTES as int) =~= contents@.subrange(
                off as int,
                off + PEM_LINE_BYTES as int,
            ));
            assert(rem.skip(PEM_LINE_BYTES as int) =~= contents@.skip(
                off + PEM_LINE_BYTES as int,
            ));
            assert(out@ + spec_b64_lines(contents@.skip(off + PEM_LINE_BYTES as int)) =~= (out@
                + spec_b64_lines(contents@.skip(off + PEM_LINE_BYTES as int))));
            assert(spec_b64_lines(rem) == base64_of(rem.take(PEM_LINE_BYTES as int)) + seq![
                NEWLINE,
            ] + spec_b64_lines(rem.skip(PEM_LINE_BYTES as int)));
        }
        off = off + PEM_LINE_BYTES;
    }
    let chunk = copy_range(contents, off, contents.len());
    let mut enc = b64_encode(chunk.as_slice());
    proof {
        let rem = contents@.skip(off as int);
        assert(rem =~= contents@.subrange(off as int, contents@.len() as int));
        assert(spec_b64_lines(rem) == base64_of(rem));
    }
    out.append(&mut enc);
    out
}

/// The PEM text of one block.
fn render_pem(block: &PemBlock) -> (r: Vec<u8>)
    ensures
        r@ == spec_pem_render(block.label@, block.contents@),
{
    let mut r: Vec<u8> = Vec::new();
    push_five_dashes(&mut r);
    r.push(66);
    r.push(69);
    r.push(71);
    r.push(73);
    r.push(78);
    r.push(32);
    let mut label = copy_bytes(block.label.as_slice());
    r.append(&mut label);
    push_five_dashes(&mut r);
    r.push(NEWLINE);
    let mut lines = b64_wrapped_lines(block.contents.as_slice());
    r.append(&mut lines);
    r.push(NEWLINE);
    push_five_dashes(&mut r);
    r.push(69);
    r.push(78);
    r.push(68);
    r.push(32);
    let mut label2 = copy_bytes(block.label.as_slice());
    r.append(&mut label2);
    push_five_dashes(&mut r);
    r.push(NEWLINE);
    r.push(NEWLINE);
    proof {
        assert(r@ =~= spec_pem_render(block.label@, block.contents@));
    }
    r
}

/// Append `-----`.
fn push_five_dashes(r: &mut Vec<u8>)
    ensures
        final(r)@ == old(r)@ + spec_five_dashes(),
{
    r.push(DASH);
    r.push(DASH);
    r.push(DASH);
    r.push(DASH);
    r.push(DASH);
    proof {
        assert(r@ =~= old(r)@ + spec_five_dashes());
    }
}

/// The issued certificate chain: the leaf (server) certificate first,
/// the issuer certificate second, and nothing else.
pub struct AcmeIssuedCertificate {
    /// The two PEM blocks, leaf first.
    pub crt_pem: Vec<PemBlock>,
}

impl AcmeIssuedCertificate {
    /// The bundle's invariant: exactly two blocks.
    pub open spec fn wf(&self) -> bool {
        self.crt_pem@.len() == 2
    }

    /// Decompose the ACME server's PEM response.  Exactly two blocks
    /// must be present: the leaf and the issuer certificate.  A bundle
    /// with fewer or more blocks, or with an invalid block, is a
    /// protocol error.
    pub fn from_pem_bundle(bytes: &[u8]) -> (r: Result<AcmeIssuedCertificate, Error>)
        ensures
            match r {
                Ok(c) => {
                    &&& c.wf()
                    &&& pem_blocks_of(bytes@) == Some(blocks_view(c.crt_pem@))
                },
                Err(e) => {
                    &&& e == Error::CrtPemParse
                    &&& match pem_blocks_of(bytes@) {
                        None => true,
                        Some(blocks) => blocks.len() != 2,
                    }
                },
            },
    {
        match pem_blocks(bytes) {
            None => Err(Error::CrtPemParse),
            Some(blocks) => {
                if blocks.len() == 2 {
                    Ok(AcmeIssuedCertificate { crt_pem: blocks })
                } else {
                    Err(Error::CrtPemParse)
                }
            },
        }
    }

    /// The PEM text of the leaf (server) certificate.
    pub fn server_certificate_pem(&self) -> (r: Vec<u8>)
        requires
            self.wf(),
        ensures
            r@ == spec_pem_render(self.crt_pem@[0].label@, self.crt_pem@[0].contents@),
    {
        render_pem(&self.crt_pem[0])
    }

    /// The PEM text of the issuer certificate.
    pub fn issuer_certificate_pem(&self) -> (r: Vec<u8>)
        requires
            self.wf(),
        ensures
            r@ == spec_pem_render(self.crt_pem@[1].label@, self.crt_pem@[1].contents@),
    {
        render_pem(&self.crt_pem[1])
    }
}

} // verus!
