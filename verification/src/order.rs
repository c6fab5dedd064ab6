//! Orders handed out as index lists.

use vstd::prelude::*;

verus! {

/// `order` lists each index below `n` exactly once.
pub open spec fn lists_each_index_once(order: Seq<usize>, n: nat) -> bool {
    &&& order.len() == n
    &&& forall|i: int| 0 <= i < order.len() ==> #[trigger] order[i] < n
    &&& forall|i: int, j: int| 0 <= i < j < order.len() ==> order[i] != order[j]
}

} // verus!
