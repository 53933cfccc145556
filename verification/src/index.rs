//! Trusted declarations of the concurrent indices.
//!
//! The route and fragment indices are concurrent maps shared across
//! requests; what each holds is given a name, and the one iteration call
//! the engine makes is stated over that name, without an order. A request
//! reads its index in a single pass; what a pass interleaved with a rescan
//! observes is the accepted mix of old and new entries, and the name stands
//! for the contents that pass saw.

use vstd::prelude::*;

use crate::fragment::Fragment;
use crate::route::Route;

verus! {

#[verifier::external_type_specification]
#[verifier::external_body]
#[verifier::reject_recursive_types(K)]
#[verifier::reject_recursive_types(V)]
#[verifier::reject_recursive_types(S)]
pub struct ExDashMap<K, V, S>(dashmap::DashMap<K, V, S>);

/// What the route index holds: each route under its final path.
pub uninterp spec fn spec_route_index(m: &dashmap::DashMap<String, Route>) -> Map<Seq<char>, Route>;

/// What the fragment index holds: each fragment under its prefixed id.
pub uninterp spec fn spec_fragment_index(m: &dashmap::DashMap<String, Fragment>) -> Map<
    Seq<char>,
    Fragment,
>;

/// Relies on dashmap::DashMap::iter: every entry of the route index, each
/// key exactly once, in no specified order; entries hold what the index
/// maps their key to.
#[verifier::external_body]
pub fn route_index_entries(m: &dashmap::DashMap<String, Route>) -> (r: Vec<(String, Route)>)
    ensures
        forall|i: int|
            0 <= i < r@.len() ==> #[trigger] spec_route_index(m).contains_key(r@[i].0@)
                && spec_route_index(m)[r@[i].0@] == r@[i].1,
        forall|k: Seq<char>|
            spec_route_index(m).contains_key(k) ==> exists|i: int|
                0 <= i < r@.len() && #[trigger] r@[i].0@ == k,
        forall|i: int, j: int|
            0 <= i < j < r@.len() ==> (#[trigger] r@[i].0)@ != (#[trigger] r@[j].0)@,
{
    m.iter().map(|e| (e.key().clone(), e.value().clone())).collect()
}

/// Relies on dashmap::DashMap::iter: every key of the fragment index,
/// each exactly once, in no specified order.
#[verifier::external_body]
pub fn fragment_index_keys(m: &dashmap::DashMap<String, Fragment>) -> (r: Vec<String>)
    ensures
        forall|i: int|
            0 <= i < r@.len() ==> #[trigger] spec_fragment_index(m).contains_key(r@[i]@),
        forall|k: Seq<char>|
            spec_fragment_index(m).contains_key(k) ==> exists|i: int|
                0 <= i < r@.len() && #[trigger] r@[i]@ == k,
        forall|i: int, j: int|
            0 <= i < j < r@.len() ==> (#[trigger] r@[i])@ != (#[trigger] r@[j])@,
{
    m.iter().map(|e| e.key().clone()).collect()
}

} // verus!
