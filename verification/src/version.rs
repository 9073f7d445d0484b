//! Request-version tracking.
//!
//! Every copy request carries a monotonically increasing version tag.
//! Outcomes are delivered asynchronously and may arrive out of order,
//! so a caller keeps only its latest outstanding version and discards
//! any outcome whose tag does not match it.

use vstd::prelude::*;

verus! {

/// A caller applies a delivered outcome exactly when its version tag
/// matches the caller's latest outstanding request version.
pub open spec fn accepts(latest: u32, delivered: u32) -> bool {
    delivered == latest
}

/// Decide whether a delivered outcome version should be applied by a
/// caller whose latest outstanding request version is `latest`.
pub fn should_apply(latest: u32, delivered: u32) -> (r: bool)
    ensures
        r == accepts(latest, delivered),
{
    latest == delivered
}

/// The versions a caller applies out of a batch of delivered outcome
/// versions: those that were delivered and match its latest
/// outstanding version.
pub open spec fn applied_versions(latest: u32, delivered: Seq<u32>) -> Set<u32> {
    Set::new(|v: u32| delivered.contains(v) && accepts(latest, v))
}

/// Law: overlapping copy requests may deliver their outcomes in either
/// order — which outcomes a caller applies depends only on which
/// versions were delivered, never on their arrival order; and only the
/// latest outstanding version is ever applied.
pub proof fn lemma_arrival_order_irrelevant(latest: u32, first: Seq<u32>, second: Seq<u32>)
    requires
        first.to_multiset() == second.to_multiset(),
    ensures
        applied_versions(latest, first) == applied_versions(latest, second),
        forall|v: u32| applied_versions(latest, first).contains(v) ==> v == latest,
{
    first.to_multiset_ensures();
    second.to_multiset_ensures();
    assert forall|v: u32| first.contains(v) <==> second.contains(v) by {
        assert(first.contains(v) <==> first.to_multiset().count(v) > 0);
        assert(second.contains(v) <==> second.to_multiset().count(v) > 0);
    }
    assert(applied_versions(latest, first) =~= applied_versions(latest, second));
}

} // verus!
