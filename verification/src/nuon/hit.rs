//! Which of a set of stacked elements the pointer is over, given for each
//! element whether its area holds the pointer.
use vstd::prelude::*;

verus! {

/// The element that is hovered: the topmost one, that is the last in
/// z-order, among those whose area holds the pointer.
pub fn topmost_hit(hits: &[bool]) -> (r: Option<usize>)
    ensures
        match r {
            Some(i) => i < hits.len() && hits[i as int] && forall|j: int|
                i < j < hits.len() ==> !#[trigger] hits[j],
            None => forall|j: int| 0 <= j < hits.len() ==> !#[trigger] hits[j],
        },
{
    let mut k: usize = hits.len();
    while k > 0
        invariant
            k <= hits.len(),
            forall|j: int| k <= j < hits.len() ==> !#[trigger] hits[j],
        decreases k,
    {
        if hits[k - 1] {
            return Some(k - 1);
        }
        k = k - 1;
    }
    None
}

/// The element under a point when elements are looked at in storage order:
/// the first one whose area holds the point.
pub fn first_hit(hits: &[bool]) -> (r: Option<usize>)
    ensures
        match r {
            Some(i) => i < hits.len() && hits[i as int] && forall|j: int|
                0 <= j < i ==> !#[trigger] hits[j],
            None => forall|j: int| 0 <= j < hits.len() ==> !#[trigger] hits[j],
        },
{
    let mut k: usize = 0;
    while k < hits.len()
        invariant
            k <= hits.len(),
            forall|j: int| 0 <= j < k ==> !#[trigger] hits[j],
        decreases hits.len() - k,
    {
        if hits[k] {
            return Some(k);
        }
        k = k + 1;
    }
    None
}

} // verus!
