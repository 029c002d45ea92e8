use vstd::prelude::*;

verus! {

/// `i` is the lowest index at which `flags` holds `true`.
pub open spec fn is_first_true(flags: Seq<bool>, i: int) -> bool {
    &&& 0 <= i < flags.len()
    &&& flags[i]
    &&& forall|j: int| 0 <= j < i ==> !flags[j]
}

/// The lowest index at which `flags` holds `true`, if there is one.
pub open spec fn first_true(flags: Seq<bool>) -> Option<int> {
    if exists|i: int| is_first_true(flags, i) {
        Some(choose|i: int| is_first_true(flags, i))
    } else {
        None
    }
}

/// The lowest index that holds `true` is the value of `first_true`.
pub proof fn lemma_first_true_is(flags: Seq<bool>, i: int)
    requires
        is_first_true(flags, i),
    ensures
        first_true(flags) == Some(i),
{
}

/// Where nothing holds `true`, `first_true` is `None`.
pub proof fn lemma_first_true_none(flags: Seq<bool>)
    requires
        forall|j: int| 0 <= j < flags.len() ==> !flags[j],
    ensures
        first_true(flags) is None,
{
}

/// What `first_true` returns: the lowest index that holds `true`, and
/// `None` only where nothing does.
pub proof fn lemma_first_true(flags: Seq<bool>)
    ensures
        match first_true(flags) {
            Some(i) => is_first_true(flags, i),
            None => forall|j: int| 0 <= j < flags.len() ==> !flags[j],
        },
{
    if exists|i: int| is_first_true(flags, i) {
    } else {
        lemma_no_first_no_true(flags, flags.len() as int);
    }
}

/// Where no index is the lowest that holds `true`, none below `n` holds it.
proof fn lemma_no_first_no_true(flags: Seq<bool>, n: int)
    requires
        !exists|i: int| is_first_true(flags, i),
        0 <= n <= flags.len(),
    ensures
        forall|j: int| 0 <= j < n ==> !flags[j],
    decreases n,
{
    if n > 0 {
        lemma_no_first_no_true(flags, n - 1);
        if flags[n - 1] {
            assert(is_first_true(flags, n - 1));
        }
    }
}

} // verus!
