//! The choice of an address among those that a host name resolves to.
//!
//! The relay listens on and connects to IPv4 addresses only. A host name may
//! resolve to several addresses of both families; the relay takes the first
//! IPv4 address in the order in which the resolver gave them.

use vstd::prelude::*;

verus! {

/// The family of a resolved socket address.
#[derive(Clone, Copy, Debug, PartialEq, Eq, Structural)]
pub enum AddressFamily {
    /// An IPv4 address.
    V4,
    /// An IPv6 address.
    V6,
}

/// Whether `index` is the place of the first IPv4 address among `families`.
pub open spec fn is_first_ipv4(families: Seq<AddressFamily>, index: int) -> bool {
    &&& 0 <= index < families.len()
    &&& families[index] == AddressFamily::V4
    &&& forall|earlier: int| 0 <= earlier < index ==> families[earlier] != AddressFamily::V4
}

/// Whether there is no IPv4 address among `families`.
pub open spec fn has_no_ipv4(families: Seq<AddressFamily>) -> bool {
    forall|index: int| 0 <= index < families.len() ==> families[index] != AddressFamily::V4
}

/// Finds the first IPv4 address among the addresses that a name resolved
/// to, given by their families in the order of the resolver. There is none
/// exactly if no address is an IPv4 address.
pub fn first_ipv4(families: &Vec<AddressFamily>) -> (found: Option<usize>)
    ensures
        match found {
            Some(index) => is_first_ipv4(families@, index as int),
            None => has_no_ipv4(families@),
        },
{
    let mut index: usize = 0;
    while index < families.len()
        invariant
            index <= families.len(),
            forall|earlier: int| 0 <= earlier < index ==> families[earlier] != AddressFamily::V4,
        decreases families.len() - index,
    {
        match families[index] {
            AddressFamily::V4 => {
                return Some(index);
            },
            AddressFamily::V6 => {},
        }
        index += 1;
    }
    None
}

/// The first IPv4 address is the only one that [`first_ipv4`] can give: no
/// two places are both the first.
pub proof fn lemma_first_ipv4_is_unique(families: Seq<AddressFamily>, a: int, b: int)
    requires
        is_first_ipv4(families, a),
        is_first_ipv4(families, b),
    ensures
        a == b,
{
    if a < b {
        assert(families[a] != AddressFamily::V4);
    } else if b < a {
        assert(families[b] != AddressFamily::V4);
    }
}

} // verus!
