//! Searching slices: the place of a value, and the largest element.

use vstd::prelude::*;
use vstd::std_specs::cmp::{PartialOrdIs, PartialOrdSpec};

verus! {

/// The index of the first occurrence of `needle` in `haystack`, or `None`
/// where it does not occur.
pub fn find_index(haystack: &[i32], needle: i32) -> (index: Option<usize>)
    ensures
        match index {
            Some(i) => {
                &&& i < haystack@.len()
                &&& haystack@[i as int] == needle
                &&& forall|j: int| 0 <= j < i ==> haystack@[j] != needle
            },
            None => forall|j: int| 0 <= j < haystack@.len() ==> haystack@[j] != needle,
        },
{
    let mut i: usize = 0;
    while i < haystack.len()
        invariant
            i <= haystack@.len(),
            forall|j: int| 0 <= j < i ==> haystack@[j] != needle,
        decreases haystack@.len() - i,
    {
        if haystack[i] == needle {
            return Some(i);
        }
        i = i + 1;
    }
    None
}

/// The index that a scan of the first `n` elements of `s` settles on: it
/// starts at the first element and moves to each later element that is
/// greater than the one it stands on.
pub open spec fn largest_index<T: PartialOrd>(s: Seq<T>, n: int) -> int
    decreases n,
{
    if n <= 1 {
        0
    } else {
        let best = largest_index(s, n - 1);
        if s[n - 1].is_gt(&s[best]) {
            n - 1
        } else {
            best
        }
    }
}

/// The element that a scan of all of `s` settles on.
pub open spec fn largest_of<T: PartialOrd>(s: Seq<T>) -> T {
    s[largest_index(s, length(s))]
}

/// The length of a sequence as an integer.
pub open spec fn length<T>(s: Seq<T>) -> int {
    s.len() as int
}

/// An index as an integer.
pub open spec fn offset(i: usize) -> int {
    i as int
}

/// The largest element of a slice that is not empty: the element that a scan
/// from the first element settles on, moving to each later element that is
/// greater. Where the order is total this is the first of the greatest
/// elements.
pub fn largest<T: PartialOrd>(list: &[T]) -> (item: &T)
    requires
        list@.len() > 0,
    ensures
        T::obeys_partial_cmp_spec() ==> *item == largest_of(list@),
{
    let mut best: usize = 0;
    let mut i: usize = 1;
    while i < list.len()
        invariant
            1 <= i <= list@.len(),
            best < i,
            T::obeys_partial_cmp_spec() ==> offset(best) == largest_index(list@, offset(i)),
        decreases list@.len() - i,
    {
        if list[i] > list[best] {
            best = i;
        }
        i = i + 1;
    }
    &list[best]
}

/// Among 32-bit integers the scan settles on the first occurrence of the
/// maximum.
pub proof fn lemma_largest_is_first_maximum(s: Seq<i32>)
    requires
        s.len() > 0,
    ensures
        forall|j: int| 0 <= j < s.len() ==> #[trigger] s[j] <= largest_of(s),
        forall|j: int| 0 <= j < largest_index(s, length(s)) ==> #[trigger] s[j] < largest_of(s),
{
    lemma_first_maximum(s, length(s));
}

/// Among the first `n` of a sequence of 32-bit integers the scan settles on
/// the first occurrence of their maximum.
proof fn lemma_first_maximum(s: Seq<i32>, n: int)
    requires
        1 <= n <= s.len(),
    ensures
        0 <= largest_index(s, n) < n,
        forall|j: int| 0 <= j < n ==> #[trigger] s[j] <= s[largest_index(s, n)],
        forall|j: int| 0 <= j < largest_index(s, n) ==> #[trigger] s[j] < s[largest_index(s, n)],
    decreases n,
{
    if n > 1 {
        lemma_first_maximum(s, n - 1);
    }
}

} // verus!
