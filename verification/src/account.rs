//! Account registration helpers.  Creating the account and writing the
//! credential file are network and file I/O done outside the library;
//! the contact-list shaping is verified here.
use vstd::prelude::*;

use crate::bytestr::concat_bytes;

verus! {

/// `mailto:`
pub open spec fn spec_mailto_prefix() -> Seq<u8> {
    seq![109u8, 97u8, 105u8, 108u8, 116u8, 111u8, 58u8]
}

/// The `mailto:` contact URI of one address.
pub open spec fn spec_mailto(contact: Seq<u8>) -> Seq<u8> {
    spec_mailto_prefix() + contact
}

/// The `mailto:` contact URIs of the given addresses, in order, as the
/// ACME server expects them at account creation.
pub fn mailto_contacts(contacts: &Vec<Vec<u8>>) -> (r: Vec<Vec<u8>>)
    ensures
        r@.len() == contacts@.len(),
        forall|i: int| 0 <= i < contacts@.len() ==> (#[trigger] r@[i])@ == spec_mailto(
            contacts@[i]@,
        ),
{
    let mut prefix: Vec<u8> = Vec::new();
    prefix.push(109);
    prefix.push(97);
    prefix.push(105);
    prefix.push(108);
    prefix.push(116);
    prefix.push(111);
    prefix.push(58);
    proof {
        assert(prefix@ =~= spec_mailto_prefix());
    }
    let mut r: Vec<Vec<u8>> = Vec::new();
    let mut i: usize = 0;
    while i < contacts.len()
        invariant
            i <= contacts@.len(),
            prefix@ == spec_mailto_prefix(),
            r@.len() == i,
            forall|j: int| 0 <= j < i ==> (#[trigger] r@[j])@ == spec_mailto(contacts@[j]@),
        decreases contacts@.len() - i,
    {
        let uri = concat_bytes(prefix.as_slice(), contacts[i].as_slice());
        r.push(uri);
        i = i + 1;
    }
    r
}

} // verus!
