use vstd::prelude::*;

verus! {

/// The needle stands in the haystack at offset `i`.
pub open spec fn occurs_at(haystack: Seq<u8>, needle: Seq<u8>, i: int) -> bool {
    &&& 0 <= i
    &&& i + needle.len() <= haystack.len()
    &&& haystack.subrange(i, i + needle.len()) == needle
}

/// The needle stands at offset `i` and at no lower offset.
pub open spec fn is_first_occurrence(haystack: Seq<u8>, needle: Seq<u8>, i: int) -> bool {
    &&& occurs_at(haystack, needle, i)
    &&& forall|j: int| 0 <= j < i ==> !occurs_at(haystack, needle, j)
}

/// The lowest offset at which the needle stands in the haystack, if any.
pub open spec fn first_occurrence(haystack: Seq<u8>, needle: Seq<u8>) -> Option<int> {
    if exists|i: int| is_first_occurrence(haystack, needle, i) {
        Some(choose|i: int| is_first_occurrence(haystack, needle, i))
    } else {
        None
    }
}

/// Calls `memchr::memmem::find`, which returns the index of the first
/// occurrence of the needle in the haystack, or `None` where there is none.
/// An empty needle occurs at index 0.
#[verifier::external_body]
fn memmem_find(haystack: &[u8], needle: &[u8]) -> (r: Option<usize>)
    ensures
        r matches Some(i) ==> is_first_occurrence(haystack@, needle@, i as int),
        r is None ==> forall|j: int| !occurs_at(haystack@, needle@, j),
{
    memchr::memmem::find(haystack, needle)
}

/// At most one offset is the first occurrence.
pub proof fn lemma_first_occurrence_unique(haystack: Seq<u8>, needle: Seq<u8>, i: int, j: int)
    requires
        is_first_occurrence(haystack, needle, i),
        is_first_occurrence(haystack, needle, j),
    ensures
        i == j,
{
}

/// An offset that is a first occurrence is the value of `first_occurrence`.
pub proof fn lemma_first_occurrence_is(haystack: Seq<u8>, needle: Seq<u8>, i: int)
    requires
        is_first_occurrence(haystack, needle, i),
    ensures
        first_occurrence(haystack, needle) == Some(i),
{
    let c = choose|k: int| is_first_occurrence(haystack, needle, k);
    lemma_first_occurrence_unique(haystack, needle, i, c);
}

/// Of two offsets at which the needle stands, the search gives the lower
/// one, provided that the needle stands nowhere below it.
pub proof fn lemma_lower_occurrence_is_first(
    haystack: Seq<u8>,
    needle: Seq<u8>,
    lower: int,
    higher: int,
)
    requires
        occurs_at(haystack, needle, lower),
        occurs_at(haystack, needle, higher),
        lower < higher,
        forall|j: int| 0 <= j < lower ==> !occurs_at(haystack, needle, j),
    ensures
        first_occurrence(haystack, needle) == Some(lower),
{
    lemma_first_occurrence_is(haystack, needle, lower);
}

/// What `first_occurrence` gives: an offset at which the needle stands and
/// below which it does not, and `None` only where it stands nowhere.
pub proof fn lemma_first_occurrence(haystack: Seq<u8>, needle: Seq<u8>)
    ensures
        match first_occurrence(haystack, needle) {
            Some(i) => is_first_occurrence(haystack, needle, i),
            None => forall|j: int| !occurs_at(haystack, needle, j),
        },
{
    if exists|i: int| is_first_occurrence(haystack, needle, i) {
    } else {
        assert forall|j: int| !occurs_at(haystack, needle, j) by {
            if 0 <= j {
                lemma_none_below(haystack, needle, j + 1);
            }
        }
    }
}

/// Where no offset is a first occurrence, the needle stands at none below `n`.
proof fn lemma_none_below(haystack: Seq<u8>, needle: Seq<u8>, n: int)
    requires
        !exists|i: int| is_first_occurrence(haystack, needle, i),
        0 <= n,
    ensures
        forall|j: int| 0 <= j < n ==> !occurs_at(haystack, needle, j),
    decreases n,
{
    if n > 0 {
        lemma_none_below(haystack, needle, n - 1);
        if occurs_at(haystack, needle, n - 1) {
            assert(is_first_occurrence(haystack, needle, n - 1));
        }
    }
}

/// Exact search for a byte sequence: the offset of its leftmost occurrence.
pub fn find(haystack: &[u8], needle: &[u8]) -> (r: Option<usize>)
    ensures
        match r {
            Some(i) => first_occurrence(haystack@, needle@) == Some(i as int),
            None => first_occurrence(haystack@, needle@) is None,
        },
        r matches Some(i) ==> is_first_occurrence(haystack@, needle@, i as int),
        r is None ==> forall|j: int| !occurs_at(haystack@, needle@, j),
{
    let r = memmem_find(haystack, needle);
    proof {
        if let Some(i) = r {
            lemma_first_occurrence_is(haystack@, needle@, i as int);
        }
    }
    r
}

} // verus!
