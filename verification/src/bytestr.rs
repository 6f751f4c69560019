//! Byte-string helpers for DNS names, record values and PEM text.
//!
//! Every name handled by this crate is ASCII, so byte vectors carry them
//! and these helpers give the few operations the issuance logic needs:
//! ASCII lower-casing, suffix tests, concatenation and trimming.
use vstd::prelude::*;

verus! {

/// ASCII code of `'A'`.
pub const UPPER_A: u8 = 65;

/// ASCII code of `'Z'`.
pub const UPPER_Z: u8 = 90;

/// ASCII code of `'.'`.
pub const DOT: u8 = 46;

/// ASCII code of `'/'`.
pub const SLASH: u8 = 47;

/// ASCII lower-casing of one byte: `'A'..'Z'` map to `'a'..'z'`,
/// everything else is unchanged.
pub open spec fn to_lower_byte(b: u8) -> u8 {
    if UPPER_A <= b && b <= UPPER_Z {
        (b + 32) as u8
    } else {
        b
    }
}

/// ASCII lower-casing of a byte string.
pub open spec fn lower(s: Seq<u8>) -> Seq<u8> {
    s.map_values(|b: u8| to_lower_byte(b))
}

/// The views of a list of byte strings.
pub open spec fn seqs_view(s: Seq<Vec<u8>>) -> Seq<Seq<u8>> {
    s.map_values(|v: Vec<u8>| v@)
}

/// A byte string already in ASCII lower case.
pub open spec fn is_lower(s: Seq<u8>) -> bool {
    lower(s) == s
}

/// `dom` is a suffix of `host` (including the case `dom == host`).
pub open spec fn is_suffix_of(dom: Seq<u8>, host: Seq<u8>) -> bool {
    dom.len() <= host.len() && host.subrange(host.len() - dom.len(), host.len() as int) == dom
}

/// `s` with every trailing `'.'` removed.
pub open spec fn trim_trailing_dots(s: Seq<u8>) -> Seq<u8>
    decreases s.len(),
{
    if s.len() > 0 && s.last() == DOT {
        trim_trailing_dots(s.drop_last())
    } else {
        s
    }
}

/// `s` with every leading `'/'` removed.
pub open spec fn trim_leading_slashes(s: Seq<u8>) -> Seq<u8>
    decreases s.len(),
{
    if s.len() > 0 && s[0] == SLASH {
        trim_leading_slashes(s.subrange(1, s.len() as int))
    } else {
        s
    }
}

/// Lower-casing twice is the same as lower-casing once, so a lower-cased
/// string satisfies `is_lower`.
pub proof fn lemma_lower_idempotent(s: Seq<u8>)
    ensures
        is_lower(lower(s)),
{
    assert(lower(lower(s)) =~= lower(s)) by {
        assert forall|i: int| 0 <= i < s.len() implies lower(lower(s))[i] == lower(s)[i] by {
            assert(lower(s)[i] == to_lower_byte(s[i]));
        }
    }
}

/// Copy `s` into a fresh vector with every ASCII upper-case letter
/// replaced by its lower-case form.
pub fn to_lower_vec(s: &[u8]) -> (r: Vec<u8>)
    ensures
        r@ == lower(s@),
{
    let mut r: Vec<u8> = Vec::new();
    let mut i: usize = 0;
    while i < s.len()
        invariant
            i <= s@.len(),
            r@ == lower(s@.subrange(0, i as int)),
        decreases s@.len() - i,
    {
        let b = s[i];
        if UPPER_A <= b && b <= UPPER_Z {
            r.push(b + 32);
        } else {
            r.push(b);
        }
        proof {
            assert(r@ =~= lower(s@.subrange(0, i + 1 as int)));
        }
        i = i + 1;
    }
    proof {
        assert(s@.subrange(0, s@.len() as int) =~= s@);
    }
    r
}

/// Byte-for-byte equality of two byte strings.
pub fn bytes_eq(a: &[u8], b: &[u8]) -> (r: bool)
    ensures
        r == (a@ == b@),
{
    if a.len() != b.len() {
        proof {
            assert(a@ != b@);
        }
        return false;
    }
    let mut i: usize = 0;
    while i < a.len()
        invariant
            i <= a@.len(),
            a@.len() == b@.len(),
            a@.subrange(0, i as int) == b@.subrange(0, i as int),
        decreases a@.len() - i,
    {
        if a[i] != b[i] {
            proof {
                assert(a@[i as int] != b@[i as int]);
            }
            return false;
        }
        proof {
            assert(a@.subrange(0, i + 1 as int) =~= b@.subrange(0, i + 1 as int));
        }
        i = i + 1;
    }
    proof {
        assert(a@ =~= b@) by {
            assert(a@.subrange(0, a@.len() as int) =~= a@);
            assert(b@.subrange(0, b@.len() as int) =~= b@);
        }
    }
    true
}

/// Whether `host` ends with `dom`.
pub fn ends_with(host: &[u8], dom: &[u8]) -> (r: bool)
    ensures
        r == is_suffix_of(dom@, host@),
{
    if dom.len() > host.len() {
        return false;
    }
    let ghost off = host@.len() - dom@.len();
    let mut i: usize = dom.len();
    let mut k: usize = host.len();
    while i > 0
        invariant
            i <= dom@.len() <= host@.len(),
            off == host@.len() - dom@.len(),
            k == off + i,
            forall|j: int| i <= j < dom@.len() ==> host@[off + j] == dom@[j],
        decreases i,
    {
        i = i - 1;
        k = k - 1;
        if host[k] != dom[i] {
            proof {
                assert(host@.subrange(off as int, host@.len() as int)[i as int] != dom@[i as int]);
            }
            return false;
        }
    }
    proof {
        assert(host@.subrange(off as int, host@.len() as int) =~= dom@);
    }
    true
}

/// A fresh copy of `s`.
pub fn copy_bytes(s: &[u8]) -> (r: Vec<u8>)
    ensures
        r@ == s@,
{
    let mut r: Vec<u8> = Vec::new();
    let mut i: usize = 0;
    while i < s.len()
        invariant
            i <= s@.len(),
            r@ == s@.subrange(0, i as int),
        decreases s@.len() - i,
    {
        r.push(s[i]);
        proof {
            assert(r@ =~= s@.subrange(0, i + 1 as int));
        }
        i = i + 1;
    }
    proof {
        assert(s@.subrange(0, s@.len() as int) =~= s@);
    }
    r
}

/// A fresh copy of `s[from..to]`.
pub fn copy_range(s: &[u8], from: usize, to: usize) -> (r: Vec<u8>)
    requires
        from <= to <= s@.len(),
    ensures
        r@ == s@.subrange(from as int, to as int),
{
    let mut r: Vec<u8> = Vec::new();
    let mut i: usize = from;
    while i < to
        invariant
            from <= i <= to <= s@.len(),
            r@ == s@.subrange(from as int, i as int),
        decreases to - i,
    {
        r.push(s[i]);
        proof {
            assert(r@ =~= s@.subrange(from as int, i + 1 as int));
        }
        i = i + 1;
    }
    r
}

/// The concatenation `a ++ b` as a fresh vector.
pub fn concat_bytes(a: &[u8], b: &[u8]) -> (r: Vec<u8>)
    ensures
        r@ == a@ + b@,
{
    let mut r: Vec<u8> = Vec::new();
    let mut i: usize = 0;
    while i < a.len()
        invariant
            i <= a@.len(),
            r@ == a@.subrange(0, i as int),
        decreases a@.len() - i,
    {
        r.push(a[i]);
        proof {
            assert(r@ =~= a@.subrange(0, i + 1 as int));
        }
        i = i + 1;
    }
    let mut j: usize = 0;
    while j < b.len()
        invariant
            j <= b@.len(),
            r@ == a@.subrange(0, a@.len() as int) + b@.subrange(0, j as int),
        decreases b@.len() - j,
    {
        r.push(b[j]);
        proof {
            assert(r@ =~= a@.subrange(0, a@.len() as int) + b@.subrange(0, j + 1 as int));
        }
        j = j + 1;
    }
    proof {
        assert(a@.subrange(0, a@.len() as int) =~= a@);
        assert(b@.subrange(0, b@.len() as int) =~= b@);
        assert(r@ =~= a@ + b@);
    }
    r
}

/// Copy `s` with every trailing `'.'` removed.
pub fn trim_trailing_dots_vec(s: &[u8]) -> (r: Vec<u8>)
    ensures
        r@ == trim_trailing_dots(s@),
{
    let mut end: usize = s.len();
    proof {
        assert(s@.subrange(0, s@.len() as int) =~= s@);
    }
    while end > 0 && s[end - 1] == DOT
        invariant
            end <= s@.len(),
            trim_trailing_dots(s@) == trim_trailing_dots(s@.subrange(0, end as int)),
        decreases end,
    {
        proof {
            assert(s@.subrange(0, end as int).last() == DOT);
            assert(s@.subrange(0, end as int).drop_last() =~= s@.subrange(0, end - 1));
        }
        end = end - 1;
    }
    let mut r: Vec<u8> = Vec::new();
    let mut i: usize = 0;
    while i < end
        invariant
            i <= end <= s@.len(),
            r@ == s@.subrange(0, i as int),
        decreases end - i,
    {
        r.push(s[i]);
        proof {
            assert(r@ =~= s@.subrange(0, i + 1 as int));
        }
        i = i + 1;
    }
    proof {
        let t = s@.subrange(0, end as int);
        if end > 0 {
            assert(t.last() != DOT);
        }
        assert(trim_trailing_dots(t) == t);
    }
    r
}

/// Copy `s` with every leading `'/'` removed.
pub fn trim_leading_slashes_vec(s: &[u8]) -> (r: Vec<u8>)
    ensures
        r@ == trim_leading_slashes(s@),
{
    let mut start: usize = 0;
    proof {
        assert(s@.subrange(0, s@.len() as int) =~= s@);
    }
    while start < s.len() && s[start] == SLASH
        invariant
            start <= s@.len(),
            trim_leading_slashes(s@) == trim_leading_slashes(
                s@.subrange(start as int, s@.len() as int),
            ),
        decreases s@.len() - start,
    {
        proof {
            let t = s@.subrange(start as int, s@.len() as int);
            assert(t[0] == SLASH);
            assert(t.subrange(1, t.len() as int) =~= s@.subrange(start + 1, s@.len() as int));
        }
        start = start + 1;
    }
    let mut r: Vec<u8> = Vec::new();
    let mut i: usize = start;
    while i < s.len()
        invariant
            start <= i <= s@.len(),
            r@ == s@.subrange(start as int, i as int),
        decreases s@.len() - i,
    {
        r.push(s[i]);
        proof {
            assert(r@ =~= s@.subrange(start as int, i + 1 as int));
        }
        i = i + 1;
    }
    proof {
        let t = s@.subrange(start as int, s@.len() as int);
        if t.len() > 0 {
            assert(t[0] != SLASH);
        }
        assert(trim_leading_slashes(t) == t);
    }
    r
}

} // verus!
