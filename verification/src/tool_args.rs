//! Typed arguments from a tool call's JSON arguments.

use crate::spec::json::{json_list_view, json_view, Json, JsonView};
use crate::spec::value::ArgValue;
use vstd::prelude::*;

verus! {

/// An argument value as plain values.
pub enum ArgView {
    Bool(bool),
    Str(Seq<char>),
    Int(int),
    Float(u64),
    Enum(Seq<char>),
    List(Seq<ArgView>),
    Count(nat),
}

pub open spec fn arg_view(a: ArgValue) -> ArgView
    decreases a,
{
    match a {
        ArgValue::Bool(b) => ArgView::Bool(b),
        ArgValue::Str(s) => ArgView::Str(s@),
        ArgValue::Int(i) => ArgView::Int(i as int),
        ArgValue::Float(f) => ArgView::Float(f),
        ArgValue::Enum(s) => ArgView::Enum(s@),
        ArgValue::List(v) => ArgView::List(arg_list_view(v@)),
        ArgValue::Count(c) => ArgView::Count(c as nat),
    }
}

pub open spec fn arg_list_view(s: Seq<ArgValue>) -> Seq<ArgView>
    decreases s,
{
    if s.len() == 0 {
        Seq::empty()
    } else {
        arg_list_view(s.drop_last()).push(arg_view(s.last()))
    }
}

/// Whether every whole number in a value fits an `i64`.
pub open spec fn ints_fit(j: JsonView) -> bool
    decreases j,
{
    match j {
        JsonView::Int(i) => i64::MIN <= i <= i64::MAX,
        JsonView::Array(items) => all_ints_fit(items),
        _ => true,
    }
}

/// Whether every whole number in each item fits an `i64`.
pub open spec fn all_ints_fit(items: Seq<JsonView>) -> bool
    decreases items,
{
    if items.len() == 0 {
        true
    } else {
        all_ints_fit(items.drop_last()) && ints_fit(items.last())
    }
}

proof fn lemma_all_ints_fit(items: Seq<JsonView>)
    ensures
        all_ints_fit(items) <==> (forall|k: int| 0 <= k < items.len() ==> ints_fit(#[trigger] items[k])),
    decreases items.len(),
{
    if items.len() > 0 {
        lemma_all_ints_fit(items.drop_last());
        if all_ints_fit(items) {
            assert forall|k: int| 0 <= k < items.len() implies ints_fit(#[trigger] items[k]) by {
                if k < items.len() - 1 {
                    assert(items.drop_last()[k] == items[k]);
                }
            }
        }
        if forall|k: int| 0 <= k < items.len() ==> ints_fit(#[trigger] items[k]) {
            assert forall|k: int| 0 <= k < items.drop_last().len() implies ints_fit(
                #[trigger] items.drop_last()[k],
            ) by {
                assert(items.drop_last()[k] == items[k]);
            }
            assert(ints_fit(items[items.len() - 1]));
        }
    }
}

/// The typed value a JSON value gives: booleans, whole numbers, floats,
/// text, and arrays of what converts (the rest of an array is dropped);
/// nothing for `null` or an object.
pub open spec fn json_arg(j: JsonView) -> Option<ArgView>
    decreases j,
{
    match j {
        JsonView::Bool(b) => Some(ArgView::Bool(b)),
        JsonView::Int(i) => Some(ArgView::Int(i)),
        JsonView::Float(f) => Some(ArgView::Float(f)),
        JsonView::Str(s) => Some(ArgView::Str(s)),
        JsonView::Array(items) => Some(ArgView::List(json_args(items))),
        _ => None,
    }
}

/// The converted items of an array, in order, without those that do not
/// convert.
pub open spec fn json_args(items: Seq<JsonView>) -> Seq<ArgView>
    decreases items,
{
    if items.len() == 0 {
        Seq::empty()
    } else {
        let rest = json_args(items.drop_last());
        match json_arg(items.last()) {
            Some(a) => rest.push(a),
            None => rest,
        }
    }
}

pub open spec fn opt_arg_view(o: Option<ArgValue>) -> Option<ArgView> {
    match o {
        Some(a) => Some(arg_view(a)),
        None => None,
    }
}

proof fn lemma_list_index(s: Seq<Json>)
    ensures
        json_list_view(s).len() == s.len(),
        forall|k: int| 0 <= k < s.len() ==> #[trigger] json_list_view(s)[k] == json_view(s[k]),
    decreases s.len(),
{
    if s.len() > 0 {
        lemma_list_index(s.drop_last());
        assert forall|k: int| 0 <= k < s.len() implies #[trigger] json_list_view(s)[k] == json_view(s[k]) by {
            if k < s.len() - 1 {
                assert(s.drop_last()[k] == s[k]);
            }
        }
    }
}

/// Convert one JSON value of a tool call into a typed argument. Whole
/// numbers above `i64::MAX` are the caller's to turn into floats first.
pub fn json_value_to_arg_value(v: &Json) -> (r: Option<ArgValue>)
    requires
        ints_fit(json_view(*v)),
    ensures
        opt_arg_view(r) == json_arg(json_view(*v)),
    decreases v,
{
    match v {
        Json::Null => None,
        Json::Bool(b) => Some(ArgValue::Bool(*b)),
        Json::Int(i) => Some(ArgValue::Int(*i)),
        Json::UInt(u) => {
            assert(*u <= i64::MAX);
            Some(ArgValue::Int(*u as i64))
        },
        Json::Float(f) => Some(ArgValue::Float(*f)),
        Json::Str(s) => Some(ArgValue::Str(s.clone())),
        Json::Array(items) => {
            let ghost iv = json_list_view(items@);
            proof {
                lemma_list_index(items@);
                lemma_all_ints_fit(iv);
            }
            let mut out: Vec<ArgValue> = Vec::new();
            let mut k: usize = 0;
            assert(iv.take(0) =~= Seq::<JsonView>::empty());
            assert(arg_list_view(out@) =~= Seq::<ArgView>::empty());
            while k < items.len()
                invariant
                    k <= items@.len(),
                    *v is Array && (*v)->Array_0 == *items,
                    iv == json_list_view(items@),
                    iv.len() == items@.len(),
                    forall|j: int| 0 <= j < items@.len() ==> #[trigger] iv[j] == json_view(items@[j]),
                    forall|j: int| 0 <= j < iv.len() ==> ints_fit(#[trigger] iv[j]),
                    arg_list_view(out@) == json_args(iv.take(k as int)),
                decreases items.len() - k,
            {
                proof {
                    assert(iv.take(k + 1).drop_last() =~= iv.take(k as int));
                    assert(iv.take(k + 1).last() == iv[k as int]);
                    assert(ints_fit(iv[k as int]));
                }
                let item = &items[k];
                assert(decreases_to!(*v => *item)) by {
                    assert(decreases_to!(*v => (*v)->Array_0));
                    assert((*v)->Array_0 == *items);
                    assert(decreases_to!(*items => items@));
                    assert(decreases_to!(items@ => items@[k as int]));
                }
                match json_value_to_arg_value(item) {
                    Some(a) => {
                        let ghost before = out@;
                        out.push(a);
                        assert(out@.drop_last() =~= before);
                    },
                    None => {},
                }
                k = k + 1;
            }
            assert(iv.take(items@.len() as int) =~= iv);
            Some(ArgValue::List(out))
        },
        Json::Object(_) => None,
    }
}

/// Whether every whole number in a value fits an `i64`, as
/// `json_value_to_arg_value` needs.
pub fn ints_fit_i64(v: &Json) -> (r: bool)
    ensures
        r == ints_fit(json_view(*v)),
    decreases v,
{
    match v {
        Json::Int(_) => true,
        Json::UInt(u) => *u <= i64::MAX as u64,
        Json::Array(items) => {
            let ghost iv = json_list_view(items@);
            proof {
                lemma_list_index(items@);
            }
            let mut k: usize = 0;
            while k < items.len()
                invariant
                    k <= items@.len(),
                    *v is Array && (*v)->Array_0 == *items,
                    iv == json_list_view(items@),
                    iv.len() == items@.len(),
                    forall|j: int| 0 <= j < items@.len() ==> #[trigger] iv[j] == json_view(items@[j]),
                    forall|j: int| 0 <= j < k ==> ints_fit(#[trigger] iv[j]),
                decreases items.len() - k,
            {
                let item = &items[k];
                assert(decreases_to!(*v => *item)) by {
                    assert(decreases_to!(*v => (*v)->Array_0));
                    assert(decreases_to!(*items => items@));
                    assert(decreases_to!(items@ => items@[k as int]));
                }
                if !ints_fit_i64(item) {
                    assert(json_view(*v) == JsonView::Array(iv));
                    assert(!ints_fit(iv[k as int]));
                    proof {
                        lemma_all_ints_fit(iv);
                    }
                    return false;
                }
                k = k + 1;
            }
            proof {
                lemma_all_ints_fit(iv);
            }
            true
        },
        _ => true,
    }
}

} // verus!
