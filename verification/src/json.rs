//! Ingestion of the boundary format: turns a `serde_json::Value` produced by
//! the parsing collaborator into the six-shape [`DynamicValue`] form.
//!
//! What a `serde_json::Value` holds is opaque here, so its six-shape reading
//! is given a name, [`json_view`], and each trusted accessor relates its
//! result to that name; the conversion is then proved to reproduce the
//! reading exactly. It is recursive, order-preserving and depth-guarded:
//! numbers that are exact integers in 64-bit signed range become integers,
//! all other numbers become 64-bit floats carried as their decimal
//! rendering, and a tree nested more deeply than [`MAX_DEPTH`] is rejected
//! with the distinguished too-deep condition.

use vstd::prelude::*;

use crate::value::arr_view;
use crate::value::entries_view;
use crate::value::lemma_arr_depth_ge;
use crate::value::lemma_arr_depth_le;
use crate::value::lemma_obj_depth_ge;
use crate::value::lemma_obj_depth_le;
use crate::value::val_depth;
use crate::value::val_of;
use crate::value::DynamicValue;
use crate::value::Val;
use crate::value::MAX_DEPTH;

verus! {

/// One step on the path from the root to a node: a map key or an array
/// index.
#[derive(Debug, Clone, PartialEq, Eq)]
pub enum PathSeg {
    Key(String),
    Index(usize),
}

/// Why a boundary value could not be converted: it was nested more deeply
/// than [`MAX_DEPTH`], or a node at the reported path had a shape outside
/// the six accepted kinds. The boundary reading below always falls within
/// the six kinds, so with this producer only the depth trip is reachable.
#[derive(Debug, Clone, PartialEq, Eq)]
pub enum ConversionError {
    TooDeep,
    UnsupportedShape { path: Vec<PathSeg> },
}

#[verifier::external_type_specification]
#[verifier::external_body]
pub struct ExJsonValue(serde_json::Value);

/// The six-shape reading of a boundary value. A value reads as `Int` exactly
/// when it is a number with an exact integer value in 64-bit signed range,
/// as `Float` exactly when it is any other number (carried as its decimal
/// rendering), and as one of the other five shapes exactly when it carries
/// that shape; array elements and map entries are read elementwise in stored
/// order. The trusted accessors below each relate their result to this name.
pub uninterp spec fn json_view(v: serde_json::Value) -> Val;

/// The elementwise reading of an array's elements.
pub open spec fn json_arr_view(items: Seq<serde_json::Value>) -> Seq<Val> {
    Seq::new(items.len(), |i: int| json_view(items[i]))
}

/// The entrywise reading of an object's entries, keys kept in order.
pub open spec fn json_entries_view(entries: Seq<(&String, &serde_json::Value)>) -> Seq<
    (Seq<char>, Val),
> {
    Seq::new(entries.len(), |i: int| (entries[i].0@, json_view(*entries[i].1)))
}

/// Relies on serde_json::Value::is_null: true exactly on the null value.
#[verifier::external_body]
fn json_is_null(v: &serde_json::Value) -> (r: bool)
    ensures
        r == (json_view(*v) is Null),
{
    v.is_null()
}

/// Relies on serde_json::Value::as_bool: the carried boolean, exactly when
/// `v` is one.
#[verifier::external_body]
fn json_as_bool(v: &serde_json::Value) -> (r: Option<bool>)
    ensures
        match r {
            Some(b) => json_view(*v) == Val::Bool(b),
            None => !(json_view(*v) is Bool),
        },
{
    v.as_bool()
}

/// Relies on serde_json::Value::as_i64: the carried number, exactly when `v`
/// is a number with an exact integer value in 64-bit signed range.
#[verifier::external_body]
fn json_as_i64(v: &serde_json::Value) -> (r: Option<i64>)
    ensures
        match r {
            Some(i) => json_view(*v) == Val::Int(i),
            None => !(json_view(*v) is Int),
        },
{
    v.as_i64()
}

/// Relies on serde_json::Value::as_number and the number's Display impl: the
/// number's decimal rendering, exactly when `v` is a number. For a float the
/// rendering is the shortest one that parses back to the identical float; a
/// number that reads as an integer also answers here, so integers must be
/// taken out first.
#[verifier::external_body]
fn json_number_text(v: &serde_json::Value) -> (r: Option<String>)
    ensures
        match r {
            Some(text) => json_view(*v) == Val::Float(text@) || json_view(*v) is Int,
            None => !(json_view(*v) is Float) && !(json_view(*v) is Int),
        },
{
    v.as_number().map(|n| n.to_string())
}

/// Relies on serde_json::Value::as_str: the carried string, exactly when `v`
/// is one.
#[verifier::external_body]
fn json_as_str<'a>(v: &'a serde_json::Value) -> (r: Option<&'a str>)
    ensures
        match r {
            Some(s) => json_view(*v) == Val::Str(s@),
            None => !(json_view(*v) is Str),
        },
{
    v.as_str()
}

/// Relies on serde_json::Value::as_array: the carried elements in stored
/// order, exactly when `v` is an array.
#[verifier::external_body]
fn json_as_array<'a>(v: &'a serde_json::Value) -> (r: Option<&'a Vec<serde_json::Value>>)
    ensures
        match r {
            Some(items) => json_view(*v) == Val::Arr(json_arr_view(items@)),
            None => !(json_view(*v) is Arr),
        },
{
    v.as_array()
}

/// Relies on serde_json::Value::as_object and Map::iter: the carried entries
/// in stored order (insertion order here), exactly when `v` is an object.
/// Keys and values are handed out by reference; nothing is copied.
#[verifier::external_body]
fn json_object_entries<'a>(v: &'a serde_json::Value) -> (r: Option<
    Vec<(&'a String, &'a serde_json::Value)>,
>)
    ensures
        match r {
            Some(entries) => json_view(*v) == Val::Obj(json_entries_view(entries@)),
            None => !(json_view(*v) is Obj),
        },
{
    v.as_object().map(|m| m.iter().collect())
}

/// Prefixes the offending path of a shape fault with one more step; the
/// depth trip carries no path and passes through unchanged.
fn prefix_path(e: ConversionError, seg: PathSeg) -> (r: ConversionError)
    ensures
        match e {
            ConversionError::TooDeep => r == ConversionError::TooDeep,
            ConversionError::UnsupportedShape { path } => (match r {
                ConversionError::UnsupportedShape { path: new_path } => new_path@ == path@.insert(
                    0,
                    seg,
                ),
                _ => false,
            }),
        },
{
    match e {
        ConversionError::UnsupportedShape { mut path } => {
            path.insert(0, seg);
            ConversionError::UnsupportedShape { path }
        },
        other => other,
    }
}

/// Converts a boundary value into the six-shape generic form. Succeeds
/// exactly on trees nested at most [`MAX_DEPTH`] deep, and the result is the
/// input's six-shape reading, with array element order and map insertion
/// order preserved.
pub fn from_json(v: &serde_json::Value) -> (r: Result<DynamicValue, ConversionError>)
    ensures
        match r {
            Ok(d) => d@ == json_view(*v) && val_depth(json_view(*v)) <= MAX_DEPTH,
            Err(e) => e == ConversionError::TooDeep && val_depth(json_view(*v)) > MAX_DEPTH,
        },
{
    from_json_rec(v, MAX_DEPTH)
}

/// Recursive worker for [`from_json`]: `budget` is the remaining allowed
/// depth.
fn from_json_rec(v: &serde_json::Value, budget: u64) -> (r: Result<DynamicValue, ConversionError>)
    ensures
        match r {
            Ok(d) => d@ == json_view(*v) && val_depth(json_view(*v)) <= budget,
            Err(e) => e == ConversionError::TooDeep && val_depth(json_view(*v)) > budget,
        },
    decreases budget,
{
    if budget == 0 {
        return Err(ConversionError::TooDeep);
    }
    if json_is_null(v) {
        return Ok(DynamicValue::Null);
    }
    if let Some(b) = json_as_bool(v) {
        return Ok(DynamicValue::Bool(b));
    }
    if let Some(i) = json_as_i64(v) {
        return Ok(DynamicValue::Int(i));
    }
    if let Some(text) = json_number_text(v) {
        return Ok(DynamicValue::Float(text));
    }
    if let Some(s) = json_as_str(v) {
        return Ok(DynamicValue::Str(s.to_owned()));
    }
    if let Some(items) = json_as_array(v) {
        let ghost model = json_arr_view(items@);
        let mut out: Vec<DynamicValue> = Vec::new();
        let mut idx: usize = 0;
        while idx < items.len()
            invariant
                0 <= idx <= items.len(),
                budget >= 1,
                model == json_arr_view(items@),
                model.len() == items@.len(),
                json_view(*v) == Val::Arr(model),
                out@.len() == idx,
                forall|j: int|
                    0 <= j < idx ==> val_of(#[trigger] out@[j]) == model[j] && val_depth(model[j])
                        <= budget - 1,
            decreases items.len() - idx,
        {
            match from_json_rec(&items[idx], budget - 1) {
                Ok(d) => {
                    out.push(d);
                },
                Err(e) => {
                    proof {
                        lemma_arr_depth_ge(model, 0, idx as int);
                    }
                    return Err(prefix_path(e, PathSeg::Index(idx)));
                },
            }
            idx = idx + 1;
        }
        proof {
            assert forall|j: int| 0 <= j < model.len() implies val_depth(#[trigger] model[j])
                <= budget - 1 by {
                assert(val_of(out@[j]) == model[j]);
            }
            lemma_arr_depth_le(model, 0, (budget - 1) as nat);
            assert(arr_view(out@) =~= model);
        }
        return Ok(DynamicValue::Arr(out));
    }
    if let Some(entries) = json_object_entries(v) {
        let ghost model = json_entries_view(entries@);
        let mut out: Vec<(String, DynamicValue)> = Vec::new();
        let mut idx: usize = 0;
        while idx < entries.len()
            invariant
                0 <= idx <= entries.len(),
                budget >= 1,
                model == json_entries_view(entries@),
                model.len() == entries@.len(),
                json_view(*v) == Val::Obj(model),
                out@.len() == idx,
                forall|j: int|
                    0 <= j < idx ==> (#[trigger] out@[j]).0@ == model[j].0 && val_of(out@[j].1)
                        == model[j].1 && val_depth(model[j].1) <= budget - 1,
            decreases entries.len() - idx,
        {
            match from_json_rec(entries[idx].1, budget - 1) {
                Ok(d) => {
                    let key = entries[idx].0.clone();
                    out.push((key, d));
                },
                Err(e) => {
                    proof {
                        lemma_obj_depth_ge(model, 0, idx as int);
                    }
                    let key = entries[idx].0.clone();
                    return Err(prefix_path(e, PathSeg::Key(key)));
                },
            }
            idx = idx + 1;
        }
        proof {
            assert forall|j: int| 0 <= j < model.len() implies val_depth(
                (#[trigger] model[j]).1,
            ) <= budget - 1 by {
                assert(val_of(out@[j].1) == model[j].1);
            }
            lemma_obj_depth_le(model, 0, (budget - 1) as nat);
            assert(entries_view(out@) =~= model);
        }
        return Ok(DynamicValue::Obj(out));
    }
    // Every boundary value reads as one of the six shapes, so the accessors
    // above cannot all have declined.
    proof {
        match json_view(*v) {
            Val::Null => assert(false),
            Val::Bool(_) => assert(false),
            Val::Int(_) => assert(false),
            Val::Float(_) => assert(false),
            Val::Str(_) => assert(false),
            Val::Arr(_) => assert(false),
            Val::Obj(_) => assert(false),
        }
    }
    Err(ConversionError::UnsupportedShape { path: Vec::new() })
}

} // verus!
