//! The shared resolution routine: translating a lookup's outcome into the
//! shape the HTTP client's resolution interface expects.

use vstd::prelude::*;

use crate::addr::{endpoint_of, Endpoint, IpAddress};

verus! {

/// The endpoint sequence a successful lookup is translated to: each address,
/// in the order the resolver returned it, paired with the placeholder port
/// zero.
pub open spec fn endpoints_of(addrs: Seq<IpAddress>) -> Seq<Endpoint> {
    addrs.map_values(|a: IpAddress| endpoint_of(a))
}

/// Translate a list of resolved addresses into endpoints, preserving order
/// and attaching the placeholder port zero to each.
pub fn endpoints_with_placeholder_port(addrs: Vec<IpAddress>) -> (r: Vec<Endpoint>)
    ensures
        r@ == endpoints_of(addrs@),
{
    let mut out: Vec<Endpoint> = Vec::new();
    let mut i: usize = 0;
    while i < addrs.len()
        invariant
            i <= addrs.len(),
            out@.len() == i,
            forall|j: int| 0 <= j < i ==> out@[j] == endpoint_of(addrs@[j]),
        decreases addrs.len() - i,
    {
        out.push(Endpoint::with_placeholder_port(addrs[i]));
        i = i + 1;
    }
    assert(out@ =~= endpoints_of(addrs@));
    out
}

/// What the adapter makes of a lookup's outcome: a successful lookup's
/// addresses become the endpoint sequence, and a failed lookup's error is
/// kept unchanged.
pub open spec fn adapted<E>(outcome: Result<Seq<IpAddress>, E>) -> Result<Seq<Endpoint>, E> {
    match outcome {
        Ok(addrs) => Ok(endpoints_of(addrs)),
        Err(e) => Err(e),
    }
}

/// Translate a lookup's outcome: on success the endpoint sequence, in the
/// resolver's order, each address with the placeholder port zero; on failure
/// the resolver's own error, unaltered.
pub fn adapt_lookup<E>(outcome: Result<Vec<IpAddress>, E>) -> (r: Result<Vec<Endpoint>, E>)
    ensures
        outcome matches Ok(addrs) ==> r matches Ok(eps) && eps@ == endpoints_of(addrs@),
        outcome matches Err(e) ==> r matches Err(e2) && e2 == e,
{
    match outcome {
        Ok(addrs) => Ok(endpoints_with_placeholder_port(addrs)),
        Err(e) => Err(e),
    }
}

/// A successful lookup of addresses `[a1, a2, ...]` is translated, by either
/// adapter shell, to the endpoint sequence `[(a1, 0), (a2, 0), ...]`: the
/// same length, each position holding that position's address, unchanged,
/// with the placeholder port zero.
pub proof fn lemma_endpoints_preserve_order(addrs: Seq<IpAddress>)
    ensures
        endpoints_of(addrs).len() == addrs.len(),
        forall|i: int|
            0 <= i < addrs.len() ==> endpoints_of(addrs)[i] == (Endpoint {
                ip: addrs[i],
                port: 0,
            }),
{
}

/// A failed lookup is surfaced by either adapter shell as the resolver's own
/// error, without alteration.
pub proof fn lemma_error_unaltered<E>(e: E)
    ensures
        adapted::<E>(Err(e)) == Err::<Seq<Endpoint>, E>(e),
{
}

} // verus!
