//! JSON values as trees, and the order of the members of their objects.
//!
//! Documents are kept on disk with the members of every object sorted by
//! name, so that two versions of one document differ only where their
//! content differs.

use crate::sorting::{is_stable_sort, key_view, key_views, sorted_order, KeyView};
use vstd::prelude::*;

verus! {

/// A JSON value. A number is held as it is written.
#[derive(Debug)]
pub enum JsonValue {
    Null,
    Bool(bool),
    Number(String),
    Text(String),
    Array(Vec<JsonValue>),
    Object(Vec<(String, JsonValue)>),
}

/// The model of a [`JsonValue`].
pub enum JsonView {
    Null,
    Bool(bool),
    Number(Seq<char>),
    Text(Seq<char>),
    Array(Seq<JsonView>),
    Object(Seq<(Seq<char>, JsonView)>),
}

/// The model of a value: the same tree, with sequences for vectors and
/// strings.
pub open spec fn json_view(v: JsonValue) -> JsonView
    decreases v,
{
    match v {
        JsonValue::Null => JsonView::Null,
        JsonValue::Bool(b) => JsonView::Bool(b),
        JsonValue::Number(n) => JsonView::Number(n@),
        JsonValue::Text(s) => JsonView::Text(s@),
        JsonValue::Array(items) => JsonView::Array(
            Seq::new(
                items@.len(),
                |i: int|
                    if 0 <= i < items@.len() {
                        json_view(items@[i])
                    } else {
                        arbitrary()
                    },
            ),
        ),
        JsonValue::Object(members) => JsonView::Object(
            Seq::new(
                members@.len(),
                |i: int|
                    if 0 <= i < members@.len() {
                        (members@[i].0@, json_view(members@[i].1))
                    } else {
                        arbitrary()
                    },
            ),
        ),
    }
}

impl View for JsonValue {
    type V = JsonView;

    open spec fn view(&self) -> JsonView {
        json_view(*self)
    }
}

impl DeepView for JsonValue {
    type V = JsonView;

    open spec fn deep_view(&self) -> JsonView {
        self@
    }
}

impl Clone for JsonValue {
    fn clone(&self) -> (r: Self)
        ensures
            r@ == self@,
    {
        copy_json(self)
    }
}

fn copy_json(v: &JsonValue) -> (r: JsonValue)
    ensures
        r@ == v@,
    decreases v,
{
    match v {
        JsonValue::Null => JsonValue::Null,
        JsonValue::Bool(b) => JsonValue::Bool(*b),
        JsonValue::Number(n) => JsonValue::Number(n.clone()),
        JsonValue::Text(s) => JsonValue::Text(s.clone()),
        JsonValue::Array(items) => {
            let mut out: Vec<JsonValue> = Vec::new();
            let mut i: usize = 0;
            while i < items.len()
                invariant
                    *v == JsonValue::Array(*items),
                    i <= items.len(),
                    out@.len() == i,
                    forall|j: int| 0 <= j < i ==> out@[j]@ == items@[j]@,
                decreases items.len() - i,
            {
                proof {
                    assert(decreases_to!(v => v->Array_0));
                    assert(decreases_to!(v->Array_0 => v->Array_0[i as int]));
                }
                out.push(copy_json(&items[i]));
                i += 1;
            }
            let r = JsonValue::Array(out);
            assert(r@->Array_0 =~= v@->Array_0);
            r
        },
        JsonValue::Object(members) => {
            let mut out: Vec<(String, JsonValue)> = Vec::new();
            let mut i: usize = 0;
            while i < members.len()
                invariant
                    *v == JsonValue::Object(*members),
                    i <= members.len(),
                    out@.len() == i,
                    forall|j: int|
                        0 <= j < i ==> out@[j].0@ == members@[j].0@ && out@[j].1@
                            == members@[j].1@,
                decreases members.len() - i,
            {
                proof {
                    assert(decreases_to!(v => v->Object_0));
                    assert(decreases_to!(v->Object_0 => v->Object_0[i as int]));
                    assert(decreases_to!(v->Object_0[i as int] => v->Object_0[i as int].1));
                }
                out.push((members[i].0.clone(), copy_json(&members[i].1)));
                i += 1;
            }
            let r = JsonValue::Object(out);
            assert(r@->Object_0 =~= v@->Object_0);
            r
        },
    }
}

/// The keys by which the members of an object are sorted: their names.
pub open spec fn member_keys(members: Seq<(Seq<char>, JsonView)>) -> Seq<KeyView> {
    Seq::new(
        members.len(),
        |i: int| KeyView { words: seq![members[i].0], number: 0, more: Seq::empty() },
    )
}

/// `sorted` is `value` with the members of every object sorted by name,
/// the objects being those that are reached through objects alone: what
/// stands in an array is left as it is.
pub open spec fn is_sorted_json(sorted: JsonView, value: JsonView) -> bool
    decreases value,
{
    match value {
        JsonView::Object(members) => sorted matches JsonView::Object(ordered) && exists|
            order: Seq<usize>,
        |
            {
                &&& #[trigger] is_stable_sort(member_keys(members), order, false)
                &&& ordered.len() == members.len()
                &&& forall|k: int|
                    0 <= k < ordered.len() && 0 <= order[k] < members.len() ==> {
                        &&& (#[trigger] ordered[k]).0 == members[order[k] as int].0
                        &&& is_sorted_json(ordered[k].1, members[order[k] as int].1)
                    }
            },
        _ => sorted == value,
    }
}

/// Sorts the members of every object by name, in the object itself and in
/// the objects that are members of objects. Arrays are left as they are.
pub fn sort_json(value: &JsonValue) -> (r: JsonValue)
    ensures
        is_sorted_json(r@, value@),
    decreases value,
{
    match value {
        JsonValue::Object(members) => {
            let ghost all = value@->Object_0;
            let mut keys: Vec<(Vec<String>, usize, Vec<String>)> = Vec::new();
            let mut i: usize = 0;
            while i < members.len()
                invariant
                    *value == JsonValue::Object(*members),
                    all == value@->Object_0,
                    i <= members.len(),
                    keys@.len() == i,
                    forall|j: int| 0 <= j < i ==> key_view(keys@[j]) == member_keys(all)[j],
                decreases members.len() - i,
            {
                let mut words: Vec<String> = Vec::new();
                words.push(members[i].0.clone());
                assert(words.deep_view() =~= seq![members@[i as int].0@]);
                let more: Vec<String> = Vec::new();
                assert(more.deep_view() =~= Seq::<Seq<char>>::empty());
                keys.push((words, 0, more));
                i += 1;
            }
            assert(key_views(keys@) =~= member_keys(all));
            let order = sorted_order(&keys, false);
            let mut out: Vec<(String, JsonValue)> = Vec::new();
            let mut k: usize = 0;
            while k < order.len()
                invariant
                    *value == JsonValue::Object(*members),
                    all == value@->Object_0,
                    k <= order.len(),
                    order@.len() == members.len(),
                    forall|j: int| 0 <= j < order@.len() ==> (#[trigger] order@[j]) < members.len(),
                    out@.len() == k,
                    forall|j: int|
                        0 <= j < k ==> (#[trigger] out@[j]).0@ == all[order@[j] as int].0
                            && is_sorted_json(out@[j].1@, all[order@[j] as int].1),
                decreases order.len() - k,
            {
                let at = order[k];
                proof {
                    assert(decreases_to!(value => value->Object_0));
                    assert(decreases_to!(value->Object_0 => value->Object_0[at as int]));
                    assert(decreases_to!(value->Object_0[at as int] => value->Object_0[at as int].1));
                }
                out.push((members[at].0.clone(), sort_json(&members[at].1)));
                k += 1;
            }
            let r = JsonValue::Object(out);
            proof {
                let ordered = r@->Object_0;
                assert(ordered.len() == all.len());
                assert forall|j: int|
                    0 <= j < ordered.len() && 0 <= order@[j] < all.len() implies {
                    &&& (#[trigger] ordered[j]).0 == all[order@[j] as int].0
                    &&& is_sorted_json(ordered[j].1, all[order@[j] as int].1)
                } by {
                    assert(ordered[j] == (out@[j].0@, out@[j].1@));
                }
                assert(is_stable_sort(member_keys(all), order@, false));
            }
            r
        },
        _ => copy_json(value),
    }
}

} // verus!
