//! The dynamic value bridge: total, recursive, order-preserving conversion
//! between the six-shape generic value and the host's native dynamic value,
//! together with its structural inverse.
//!
//! Both directions guard recursion depth explicitly, because tree depth is
//! input-controlled: a tree nested more deeply than [`MAX_DEPTH`] is rejected
//! with the distinguished [`DepthError::TooDeep`] condition instead of
//! overflowing the call stack.

use vstd::prelude::*;

use crate::value::arr_view;
use crate::value::DepthError;
use crate::value::MAX_DEPTH;
use crate::value::entries_view;
use crate::value::obj_depth;
use crate::value::arr_depth;
use crate::value::val_depth;
use crate::value::val_of;
use crate::value::lemma_arr_depth_ge;
use crate::value::lemma_arr_depth_le;
use crate::value::lemma_obj_depth_ge;
use crate::value::lemma_obj_depth_le;
use crate::value::DynamicValue;
use crate::value::Val;

verus! {

/// A host-native dynamic value: what the six shapes become on the host side.
/// Order is significant in lists and dictionaries; floats are carried as
/// their decimal rendering, exactly as in [`DynamicValue`].
#[derive(Debug, PartialEq, Eq)]
pub enum HostValue {
    Null,
    Bool(bool),
    Int(i64),
    Float(String),
    Str(String),
    List(Vec<HostValue>),
    Dict(Vec<(String, HostValue)>),
}

/// The mathematical model of a `HostValue`.
#[verifier::ext_equal]
pub enum HVal {
    Null,
    Bool(bool),
    Int(i64),
    Float(Seq<char>),
    Str(Seq<char>),
    List(Seq<HVal>),
    Dict(Seq<(Seq<char>, HVal)>),
}

/// The model of a sequence of list elements.
pub open spec fn list_view(items: Seq<HostValue>) -> Seq<HVal>
    decreases items, 0int,
{
    Seq::new(
        items.len(),
        |i: int|
            if 0 <= i < items.len() {
                hval_of(items[i])
            } else {
                HVal::Null
            },
    )
}

/// The model of a sequence of dictionary entries.
pub open spec fn dict_view(entries: Seq<(String, HostValue)>) -> Seq<(Seq<char>, HVal)>
    decreases entries, 0int,
{
    Seq::new(
        entries.len(),
        |i: int|
            if 0 <= i < entries.len() {
                (entries[i].0@, hval_of(entries[i].1))
            } else {
                (Seq::empty(), HVal::Null)
            },
    )
}

/// The model of a `HostValue`.
pub open spec fn hval_of(h: HostValue) -> HVal
    decreases h, 1int,
{
    match h {
        HostValue::Null => HVal::Null,
        HostValue::Bool(b) => HVal::Bool(b),
        HostValue::Int(i) => HVal::Int(i),
        HostValue::Float(text) => HVal::Float(text@),
        HostValue::Str(s) => HVal::Str(s@),
        HostValue::List(items) => HVal::List(list_view(items@)),
        HostValue::Dict(entries) => HVal::Dict(dict_view(entries@)),
    }
}

impl View for HostValue {
    type V = HVal;

    open spec fn view(&self) -> HVal {
        hval_of(*self)
    }
}

/// Nesting depth of a host value, counted as in [`val_depth`].
pub open spec fn hval_depth(h: HVal) -> nat
    decreases h, 1int,
{
    match h {
        HVal::List(items) => 1 + list_depth(items, 0),
        HVal::Dict(entries) => 1 + dict_depth(entries, 0),
        _ => 1,
    }
}

/// The deepest element among `items[i..]`.
pub open spec fn list_depth(items: Seq<HVal>, i: int) -> nat
    decreases items, items.len() - i,
{
    if 0 <= i < items.len() {
        let d = hval_depth(items[i]);
        let rest = list_depth(items, i + 1);
        if d >= rest {
            d
        } else {
            rest
        }
    } else {
        0
    }
}

/// The deepest entry value among `entries[i..]`.
pub open spec fn dict_depth(entries: Seq<(Seq<char>, HVal)>, i: int) -> nat
    decreases entries, entries.len() - i,
{
    if 0 <= i < entries.len() {
        let d = hval_depth(entries[i].1);
        let rest = dict_depth(entries, i + 1);
        if d >= rest {
            d
        } else {
            rest
        }
    } else {
        0
    }
}

/// What the bridge turns a generic value into: the same tree in host shapes.
pub open spec fn host_of(v: Val) -> HVal
    decreases v, 1int,
{
    match v {
        Val::Null => HVal::Null,
        Val::Bool(b) => HVal::Bool(b),
        Val::Int(i) => HVal::Int(i),
        Val::Float(text) => HVal::Float(text),
        Val::Str(s) => HVal::Str(s),
        Val::Arr(items) => HVal::List(host_of_arr(items)),
        Val::Obj(entries) => HVal::Dict(host_of_obj(entries)),
    }
}

/// Elementwise image of an array under [`host_of`].
pub open spec fn host_of_arr(items: Seq<Val>) -> Seq<HVal>
    decreases items, 0int,
{
    Seq::new(
        items.len(),
        |i: int|
            if 0 <= i < items.len() {
                host_of(items[i])
            } else {
                HVal::Null
            },
    )
}

/// Entrywise image of a map under [`host_of`], keys kept in order.
pub open spec fn host_of_obj(entries: Seq<(Seq<char>, Val)>) -> Seq<(Seq<char>, HVal)>
    decreases entries, 0int,
{
    Seq::new(
        entries.len(),
        |i: int|
            if 0 <= i < entries.len() {
                (entries[i].0, host_of(entries[i].1))
            } else {
                (Seq::empty(), HVal::Null)
            },
    )
}

/// The structural inverse of [`host_of`].
pub open spec fn dyn_of(h: HVal) -> Val
    decreases h, 1int,
{
    match h {
        HVal::Null => Val::Null,
        HVal::Bool(b) => Val::Bool(b),
        HVal::Int(i) => Val::Int(i),
        HVal::Float(text) => Val::Float(text),
        HVal::Str(s) => Val::Str(s),
        HVal::List(items) => Val::Arr(dyn_of_list(items)),
        HVal::Dict(entries) => Val::Obj(dyn_of_dict(entries)),
    }
}

/// Elementwise image of a list under [`dyn_of`].
pub open spec fn dyn_of_list(items: Seq<HVal>) -> Seq<Val>
    decreases items, 0int,
{
    Seq::new(
        items.len(),
        |i: int|
            if 0 <= i < items.len() {
                dyn_of(items[i])
            } else {
                Val::Null
            },
    )
}

/// Entrywise image of a dictionary under [`dyn_of`], keys kept in order.
pub open spec fn dyn_of_dict(entries: Seq<(Seq<char>, HVal)>) -> Seq<(Seq<char>, Val)>
    decreases entries, 0int,
{
    Seq::new(
        entries.len(),
        |i: int|
            if 0 <= i < entries.len() {
                (entries[i].0, dyn_of(entries[i].1))
            } else {
                (Seq::empty(), Val::Null)
            },
    )
}

/// Round trip: converting a generic value to the host shape and back
/// reproduces the original value exactly, including array element order and
/// map key order.
pub proof fn lemma_round_trip(v: Val)
    ensures
        dyn_of(host_of(v)) == v,
    decreases v,
{
    match v {
        Val::Arr(items) => {
            assert forall|i: int| 0 <= i < items.len() implies dyn_of(host_of(items[i]))
                == items[i] by {
                lemma_round_trip(items[i]);
            }
            assert(dyn_of_list(host_of_arr(items)) =~= items);
        },
        Val::Obj(entries) => {
            assert forall|i: int| 0 <= i < entries.len() implies dyn_of(host_of(entries[i].1))
                == entries[i].1 by {
                lemma_round_trip(entries[i].1);
            }
            assert(dyn_of_dict(host_of_obj(entries)) =~= entries);
        },
        _ => {},
    }
}

/// Converts a generic value into the host's native shape, preserving order
/// everywhere. Succeeds exactly on trees nested at most [`MAX_DEPTH`] deep.
pub fn to_host(v: &DynamicValue) -> (r: Result<HostValue, DepthError>)
    ensures
        match r {
            Ok(h) => val_depth(v@) <= MAX_DEPTH && h@ == host_of(v@),
            Err(e) => val_depth(v@) > MAX_DEPTH && e == DepthError::TooDeep,
        },
{
    to_host_rec(v, MAX_DEPTH)
}

/// Recursive worker for [`to_host`]: `budget` is the remaining allowed depth.
fn to_host_rec(v: &DynamicValue, budget: u64) -> (r: Result<HostValue, DepthError>)
    ensures
        match r {
            Ok(h) => val_depth(v@) <= budget && h@ == host_of(v@),
            Err(e) => val_depth(v@) > budget && e == DepthError::TooDeep,
        },
    decreases budget,
{
    if budget == 0 {
        return Err(DepthError::TooDeep);
    }
    match v {
        DynamicValue::Null => Ok(HostValue::Null),
        DynamicValue::Bool(b) => Ok(HostValue::Bool(*b)),
        DynamicValue::Int(i) => Ok(HostValue::Int(*i)),
        DynamicValue::Float(text) => Ok(HostValue::Float(text.clone())),
        DynamicValue::Str(s) => Ok(HostValue::Str(s.clone())),
        DynamicValue::Arr(items) => {
            let ghost model = arr_view(items@);
            let mut out: Vec<HostValue> = Vec::new();
            let mut idx: usize = 0;
            while idx < items.len()
                invariant
                    0 <= idx <= items.len(),
                    budget >= 1,
                    model == arr_view(items@),
                    v@ == Val::Arr(model),
                    model.len() == items@.len(),
                    out@.len() == idx,
                    forall|j: int| 0 <= j < idx ==> val_depth(#[trigger] model[j]) <= budget - 1,
                    forall|j: int|
                        0 <= j < idx ==> hval_of(#[trigger] out@[j]) == host_of(model[j]),
                decreases items.len() - idx,
            {
                match to_host_rec(&items[idx], budget - 1) {
                    Ok(h) => {
                        out.push(h);
                    },
                    Err(e) => {
                        proof {
                            lemma_arr_depth_ge(model, 0, idx as int);
                        }
                        return Err(e);
                    },
                }
                idx = idx + 1;
            }
            proof {
                lemma_arr_depth_le(model, 0, (budget - 1) as nat);
                assert(list_view(out@) =~= host_of_arr(model));
            }
            Ok(HostValue::List(out))
        },
        DynamicValue::Obj(entries) => {
            let ghost model = entries_view(entries@);
            let mut out: Vec<(String, HostValue)> = Vec::new();
            let mut idx: usize = 0;
            while idx < entries.len()
                invariant
                    0 <= idx <= entries.len(),
                    budget >= 1,
                    model == entries_view(entries@),
                    v@ == Val::Obj(model),
                    model.len() == entries@.len(),
                    out@.len() == idx,
                    forall|j: int| 0 <= j < idx ==> val_depth(#[trigger] model[j].1) <= budget - 1,
                    forall|j: int|
                        0 <= j < idx ==> (#[trigger] out@[j]).0@ == model[j].0 && hval_of(
                            out@[j].1,
                        ) == host_of(model[j].1),
                decreases entries.len() - idx,
            {
                match to_host_rec(&entries[idx].1, budget - 1) {
                    Ok(h) => {
                        let key = entries[idx].0.clone();
                        out.push((key, h));
                    },
                    Err(e) => {
                        proof {
                            lemma_obj_depth_ge(model, 0, idx as int);
                        }
                        return Err(e);
                    },
                }
                idx = idx + 1;
            }
            proof {
                lemma_obj_depth_le(model, 0, (budget - 1) as nat);
                assert(dict_view(out@) =~= host_of_obj(model));
            }
            Ok(HostValue::Dict(out))
        },
    }
}

/// Converts a host-native value back into the six-shape generic form: the
/// structural inverse of [`to_host`]. Succeeds exactly on trees nested at
/// most [`MAX_DEPTH`] deep.
pub fn from_host(h: &HostValue) -> (r: Result<DynamicValue, DepthError>)
    ensures
        match r {
            Ok(d) => hval_depth(h@) <= MAX_DEPTH && d@ == dyn_of(h@),
            Err(e) => hval_depth(h@) > MAX_DEPTH && e == DepthError::TooDeep,
        },
{
    from_host_rec(h, MAX_DEPTH)
}

/// Every list element is at most as deep as the deepest element.
proof fn lemma_list_depth_ge(items: Seq<HVal>, i: int, j: int)
    requires
        0 <= i <= j < items.len(),
    ensures
        hval_depth(items[j]) <= list_depth(items, i),
    decreases j - i,
{
    if i < j {
        lemma_list_depth_ge(items, i + 1, j);
    }
}

/// A bound on every list element bounds the deepest element.
proof fn lemma_list_depth_le(items: Seq<HVal>, i: int, bound: nat)
    requires
        0 <= i <= items.len(),
        forall|j: int| i <= j < items.len() ==> hval_depth(#[trigger] items[j]) <= bound,
    ensures
        list_depth(items, i) <= bound,
    decreases items.len() - i,
{
    if i < items.len() {
        lemma_list_depth_le(items, i + 1, bound);
    }
}

/// Every dictionary entry value is at most as deep as the deepest one.
proof fn lemma_dict_depth_ge(entries: Seq<(Seq<char>, HVal)>, i: int, j: int)
    requires
        0 <= i <= j < entries.len(),
    ensures
        hval_depth(entries[j].1) <= dict_depth(entries, i),
    decreases j - i,
{
    if i < j {
        lemma_dict_depth_ge(entries, i + 1, j);
    }
}

/// A bound on every dictionary entry value bounds the deepest one.
proof fn lemma_dict_depth_le(entries: Seq<(Seq<char>, HVal)>, i: int, bound: nat)
    requires
        0 <= i <= entries.len(),
        forall|j: int| i <= j < entries.len() ==> hval_depth(#[trigger] entries[j].1) <= bound,
    ensures
        dict_depth(entries, i) <= bound,
    decreases entries.len() - i,
{
    if i < entries.len() {
        lemma_dict_depth_le(entries, i + 1, bound);
    }
}

/// Recursive worker for [`from_host`]: `budget` is the remaining allowed
/// depth.
fn from_host_rec(h: &HostValue, budget: u64) -> (r: Result<DynamicValue, DepthError>)
    ensures
        match r {
            Ok(d) => hval_depth(h@) <= budget && d@ == dyn_of(h@),
            Err(e) => hval_depth(h@) > budget && e == DepthError::TooDeep,
        },
    decreases budget,
{
    if budget == 0 {
        return Err(DepthError::TooDeep);
    }
    match h {
        HostValue::Null => Ok(DynamicValue::Null),
        HostValue::Bool(b) => Ok(DynamicValue::Bool(*b)),
        HostValue::Int(i) => Ok(DynamicValue::Int(*i)),
        HostValue::Float(text) => Ok(DynamicValue::Float(text.clone())),
        HostValue::Str(s) => Ok(DynamicValue::Str(s.clone())),
        HostValue::List(items) => {
            let ghost model = list_view(items@);
            let mut out: Vec<DynamicValue> = Vec::new();
            let mut idx: usize = 0;
            while idx < items.len()
                invariant
                    0 <= idx <= items.len(),
                    budget >= 1,
                    model == list_view(items@),
                    h@ == HVal::List(model),
                    model.len() == items@.len(),
                    out@.len() == idx,
                    forall|j: int| 0 <= j < idx ==> hval_depth(#[trigger] model[j]) <= budget - 1,
                    forall|j: int| 0 <= j < idx ==> val_of(#[trigger] out@[j]) == dyn_of(model[j]),
                decreases items.len() - idx,
            {
                match from_host_rec(&items[idx], budget - 1) {
                    Ok(d) => {
                        out.push(d);
                    },
                    Err(e) => {
                        proof {
                            lemma_list_depth_ge(model, 0, idx as int);
                        }
                        return Err(e);
                    },
                }
                idx = idx + 1;
            }
            proof {
                lemma_list_depth_le(model, 0, (budget - 1) as nat);
                assert(arr_view(out@) =~= dyn_of_list(model));
            }
            Ok(DynamicValue::Arr(out))
        },
        HostValue::Dict(entries) => {
            let ghost model = dict_view(entries@);
            let mut out: Vec<(String, DynamicValue)> = Vec::new();
            let mut idx: usize = 0;
            while idx < entries.len()
                invariant
                    0 <= idx <= entries.len(),
                    budget >= 1,
                    model == dict_view(entries@),
                    h@ == HVal::Dict(model),
                    model.len() == entries@.len(),
                    out@.len() == idx,
                    forall|j: int| 0 <= j < idx ==> hval_depth(#[trigger] model[j].1) <= budget - 1,
                    forall|j: int|
                        0 <= j < idx ==> (#[trigger] out@[j]).0@ == model[j].0 && val_of(
                            out@[j].1,
                        ) == dyn_of(model[j].1),
                decreases entries.len() - idx,
            {
                match from_host_rec(&entries[idx].1, budget - 1) {
                    Ok(d) => {
                        let key = entries[idx].0.clone();
                        out.push((key, d));
                    },
                    Err(e) => {
                        proof {
                            lemma_dict_depth_ge(model, 0, idx as int);
                        }
                        return Err(e);
                    },
                }
                idx = idx + 1;
            }
            proof {
                lemma_dict_depth_le(model, 0, (budget - 1) as nat);
                assert(entries_view(out@) =~= dyn_of_dict(model));
            }
            Ok(DynamicValue::Obj(out))
        },
    }
}

} // verus!
