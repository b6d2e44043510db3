//! Read-only requests.
use vstd::prelude::*;

use crate::msg::{ComponentsResponse, QueryMsg};
use crate::state::Component;
use crate::store::{sorted_by_key, Store};

verus! {

/// Answers a read-only request.
pub fn query(store: &Store, msg: QueryMsg) -> (r: ComponentsResponse)
    ensures
        match msg {
            QueryMsg::Components {  } => r.components@ == store@.components,
        },
{
    match msg {
        QueryMsg::Components {  } => query_components(store),
    }
}

/// All registered components, in ascending key order.
pub fn query_components(store: &Store) -> (r: ComponentsResponse)
    ensures
        r.components@ == store@.components,
        store.wf() ==> sorted_by_key(r.components@),
{
    let all = store.components();
    let n = all.len();
    let mut components: Vec<Component> = Vec::new();
    let mut i: usize = 0;
    while i < n
        invariant
            n == all@.len(),
            i <= n,
            components@ == all@.subrange(0, i as int),
        decreases n - i,
    {
        components.push(all[i].clone());
        assert(components@ =~= all@.subrange(0, i + 1));
        i = i + 1;
    }
    assert(all@.subrange(0, n as int) =~= all@);
    ComponentsResponse { components }
}

} // verus!
