//! The first position at which a rule fails.
//!
//! A list is judged position by position; where it fails, the failure that is
//! reported is that of the first position that fails.

use vstd::prelude::*;

verus! {

/// Position `i` fails, and no earlier position does.
pub open spec fn is_first_false(flags: Seq<bool>, i: int) -> bool {
    &&& 0 <= i < flags.len()
    &&& !flags[i]
    &&& forall|j: int| 0 <= j < i ==> #[trigger] flags[j]
}

/// The first position that fails, where one does.
pub open spec fn first_false(flags: Seq<bool>) -> int {
    choose|i: int| is_first_false(flags, i)
}

/// Whether every position passes.
pub open spec fn all_true(flags: Seq<bool>) -> bool {
    forall|i: int| 0 <= i < flags.len() ==> #[trigger] flags[i]
}

/// There is one first failure at most.
pub proof fn first_false_is_unique(flags: Seq<bool>, i: int)
    requires
        is_first_false(flags, i),
    ensures
        first_false(flags) == i,
{
    let first = first_false(flags);
    assert(is_first_false(flags, first));
    if first < i {
        assert(flags[first]);
    } else if i < first {
        assert(flags[i]);
    }
}

/// Where some position fails, one is the first to fail.
pub proof fn some_false_is_first(flags: Seq<bool>)
    requires
        !all_true(flags),
    ensures
        is_first_false(flags, first_false(flags)),
    decreases flags.len(),
{
    let front = flags.drop_last();
    if !all_true(front) {
        some_false_is_first(front);
        let first = first_false(front);
        assert(front[first] == flags[first]);
        assert forall|j: int| 0 <= j < first implies #[trigger] flags[j] by {
            assert(front[j] == flags[j]);
        }
        assert(is_first_false(flags, first));
    } else {
        let last = flags.len() - 1;
        assert forall|j: int| 0 <= j < last implies #[trigger] flags[j] by {
            assert(front[j] == flags[j]);
        }
        assert(is_first_false(flags, last));
    }
}

} // verus!
