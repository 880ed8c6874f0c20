//! The order in which listings show their items.
//!
//! Items are ordered by a key: a list of strings, then a number, then
//! another list of strings, compared in this order. The sorting itself is
//! that of the standard library.

use crate::text::strings_le;
use vstd::prelude::*;

verus! {

/// The model of a key.
pub struct KeyView {
    pub words: Seq<Seq<char>>,
    pub number: nat,
    pub more: Seq<Seq<char>>,
}

/// The key of `a` comes before that of `b`, or is the same.
pub open spec fn key_le(a: KeyView, b: KeyView) -> bool {
    if a.words != b.words {
        strings_le(a.words, b.words)
    } else if a.number != b.number {
        a.number < b.number
    } else {
        strings_le(a.more, b.more)
    }
}

/// The model of a key.
pub open spec fn key_view(key: (Vec<String>, usize, Vec<String>)) -> KeyView {
    KeyView { words: key.0.deep_view(), number: key.1 as nat, more: key.2.deep_view() }
}

/// The models of the keys.
pub open spec fn key_views(keys: Seq<(Vec<String>, usize, Vec<String>)>) -> Seq<KeyView> {
    Seq::new(keys.len(), |i: int| key_view(keys[i]))
}

/// `order` holds every place below `n` once.
pub open spec fn is_permutation(n: nat, order: Seq<usize>) -> bool {
    &&& order.len() == n
    &&& forall|i: int| 0 <= i < n ==> (#[trigger] order[i]) < n
    &&& forall|i: int, j: int| 0 <= i < j < n ==> order[i] != order[j]
}

/// `order` lists the places of `keys` sorted by their keys, ascending or
/// descending, and places of equal keys in the order in which they stand.
pub open spec fn is_stable_sort(keys: Seq<KeyView>, order: Seq<usize>, descending: bool) -> bool {
    &&& is_permutation(keys.len(), order)
    &&& forall|i: int, j: int|
        0 <= i < j < order.len() ==> if descending {
            key_le(keys[#[trigger] order[j] as int], keys[#[trigger] order[i] as int])
        } else {
            key_le(keys[order[i] as int], keys[order[j] as int])
        }
    &&& forall|i: int, j: int|
        0 <= i < j < order.len() && keys[#[trigger] order[i] as int] == keys[
            #[trigger] order[j] as int
        ] ==> order[i] < order[j]
}

/// `order` lists the places from the first to the last.
pub open spec fn is_identity(order: Seq<usize>) -> bool {
    forall|i: int| 0 <= i < order.len() ==> #[trigger] order[i] == i
}

/// `slice::sort_by` of the standard library on the places, comparing the
/// keys at two places as the standard library orders tuples, vectors,
/// strings and numbers. The sort is stable, and the order of strings is
/// that of their characters.
#[verifier::external_body]
fn sort_ascending(order: &mut Vec<usize>, keys: &Vec<(Vec<String>, usize, Vec<String>)>)
    requires
        old(order)@.len() == keys@.len(),
        is_identity(old(order)@),
    ensures
        is_stable_sort(key_views(keys@), final(order)@, false),
{
    order.sort_by(|a, b| keys[*a].cmp(&keys[*b]))
}

/// `slice::sort_by` of the standard library on the places, comparing the
/// keys at two places as the standard library orders tuples, vectors,
/// strings and numbers, the greater first. The sort is stable, and the
/// order of strings is that of their characters.
#[verifier::external_body]
fn sort_descending(order: &mut Vec<usize>, keys: &Vec<(Vec<String>, usize, Vec<String>)>)
    requires
        old(order)@.len() == keys@.len(),
        is_identity(old(order)@),
    ensures
        is_stable_sort(key_views(keys@), final(order)@, true),
{
    order.sort_by(|a, b| keys[*b].cmp(&keys[*a]))
}

/// The places of the keys in sorted order: ascending, or descending where
/// asked for; places of equal keys in the order in which they stand.
pub fn sorted_order(keys: &Vec<(Vec<String>, usize, Vec<String>)>, descending: bool) -> (order: Vec<
    usize,
>)
    ensures
        is_stable_sort(key_views(keys@), order@, descending),
{
    let mut order: Vec<usize> = Vec::new();
    let mut i: usize = 0;
    while i < keys.len()
        invariant
            i <= keys.len(),
            order@.len() == i,
            is_identity(order@),
        decreases keys.len() - i,
    {
        order.push(i);
        i += 1;
    }
    if descending {
        sort_descending(&mut order, keys);
    } else {
        sort_ascending(&mut order, keys);
    }
    order
}

/// The places in the opposite order.
pub fn reversed(order: &Vec<usize>) -> (r: Vec<usize>)
    ensures
        r@ == order@.reverse(),
{
    let mut r: Vec<usize> = Vec::new();
    let mut i: usize = order.len();
    while i > 0
        invariant
            i <= order.len(),
            r@.len() == order.len() - i,
            forall|k: int| 0 <= k < r@.len() ==> r@[k] == order@[order.len() - 1 - k],
        decreases i,
    {
        i -= 1;
        r.push(order[i]);
    }
    assert(r@ =~= order@.reverse());
    r
}

} // verus!
