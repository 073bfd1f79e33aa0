//! The attribute resolver: a generic, schema-tolerant, pre-order depth-first
//! search over a tree in dynamic-value shape that locates the first binding
//! of a given name in document order.
//!
//! A binding is a map carrying a `KeyValue` entry whose `from` is exactly one
//! `Raw` part; if that part's `content` equals the key, the binding's `to`
//! value is returned. Any node not matching this shape is simply not a match
//! and the search continues: duplicate keys resolve to the first occurrence
//! in document order, and unanticipated shapes are skipped without error.

use vstd::prelude::*;

use crate::value::arr_view;
use crate::value::entries_view;
use crate::value::lemma_arr_depth_ge;
use crate::value::lemma_obj_depth_ge;
use crate::value::val_depth;
use crate::value::DepthError;
use crate::value::MAX_DEPTH;
use crate::value::val_of;
use crate::value::DynamicValue;
use crate::value::Val;

verus! {

/// The first entry of `entries[i..]` whose key equals `key`, if any.
pub open spec fn obj_lookup(entries: Seq<(Seq<char>, Val)>, key: Seq<char>, i: int) -> Option<Val>
    decreases entries.len() - i,
{
    if 0 <= i < entries.len() {
        if entries[i].0 == key {
            Some(entries[i].1)
        } else {
            obj_lookup(entries, key, i + 1)
        }
    } else {
        None
    }
}

/// The literal content of a `Raw` part in dynamic-value shape, if `part` has
/// that shape.
pub open spec fn raw_part_content(part: Val) -> Option<Seq<char>> {
    match part {
        Val::Obj(part_entries) => match obj_lookup(part_entries, "Raw"@, 0) {
            Some(Val::Obj(raw_entries)) => match obj_lookup(raw_entries, "content"@, 0) {
                Some(Val::Str(content)) => Some(content),
                _ => None,
            },
            _ => None,
        },
        _ => None,
    }
}

/// The local match rule: `v` is a map with a `KeyValue` entry whose `from`
/// is exactly one `Raw` part with content equal to `key`; the result is the
/// binding's `to` value. Multi-segment or interpolated paths never match.
pub open spec fn kv_binding(v: Val, key: Seq<char>) -> Option<Val> {
    match v {
        Val::Obj(entries) => match obj_lookup(entries, "KeyValue"@, 0) {
            Some(Val::Obj(kv_entries)) => match obj_lookup(kv_entries, "from"@, 0) {
                Some(Val::Arr(parts)) => if parts.len() == 1 && raw_part_content(parts[0])
                    == Some(key) {
                    obj_lookup(kv_entries, "to"@, 0)
                } else {
                    None
                },
                _ => None,
            },
            _ => None,
        },
        _ => None,
    }
}

/// The resolver's result: the `to` value of the first `KeyValue` binding of
/// `key` encountered in a pre-order, depth-first, document-order walk of
/// `v`, or nothing. At a map a local match pre-empts descending into the
/// map's own entries; scalars never match.
pub open spec fn find_binding(v: Val, key: Seq<char>) -> Option<Val>
    decreases v, 0int,
{
    match v {
        Val::Obj(entries) => match kv_binding(v, key) {
            Some(t) => Some(t),
            None => find_in_obj(entries, key, 0),
        },
        Val::Arr(items) => find_in_arr(items, key, 0),
        _ => None,
    }
}

/// The first binding of `key` inside the entry values `entries[i..]`.
pub open spec fn find_in_obj(entries: Seq<(Seq<char>, Val)>, key: Seq<char>, i: int) -> Option<Val>
    decreases entries, entries.len() - i,
{
    if 0 <= i < entries.len() {
        match find_binding(entries[i].1, key) {
            Some(t) => Some(t),
            None => find_in_obj(entries, key, i + 1),
        }
    } else {
        None
    }
}

/// The first binding of `key` inside the elements `items[i..]`.
pub open spec fn find_in_arr(items: Seq<Val>, key: Seq<char>, i: int) -> Option<Val>
    decreases items, items.len() - i,
{
    if 0 <= i < items.len() {
        match find_binding(items[i], key) {
            Some(t) => Some(t),
            None => find_in_arr(items, key, i + 1),
        }
    } else {
        None
    }
}

/// Decides equality of two string slices.
fn str_eq(a: &str, b: &str) -> (r: bool)
    ensures
        r == (a@ == b@),
{
    let owned_a = a.to_owned();
    let owned_b = b.to_owned();
    owned_a == owned_b
}

/// Looks a key up among map entries, first match in stored order.
fn obj_get<'a>(entries: &'a Vec<(String, DynamicValue)>, key: &str) -> (r: Option<
    &'a DynamicValue,
>)
    ensures
        match r {
            Some(t) => obj_lookup(entries_view(entries@), key@, 0) == Some(t@),
            None => obj_lookup(entries_view(entries@), key@, 0) is None,
        },
{
    let ghost model = entries_view(entries@);
    let mut idx: usize = 0;
    while idx < entries.len()
        invariant
            0 <= idx <= entries.len(),
            model == entries_view(entries@),
            model.len() == entries@.len(),
            obj_lookup(model, key@, 0) == obj_lookup(model, key@, idx as int),
        decreases entries.len() - idx,
    {
        if str_eq(entries[idx].0.as_str(), key) {
            return Some(&entries[idx].1);
        }
        idx = idx + 1;
    }
    None
}

/// Tests a single node for the local match rule of [`kv_binding`] and hands
/// back the bound `to` value on a match. The node's own entries are not
/// searched recursively; that is [`find_key_pair`]'s task.
pub fn process_keyvalue<'a>(node: &'a DynamicValue, key: &str) -> (r: Option<&'a DynamicValue>)
    ensures
        match r {
            Some(t) => kv_binding(node@, key@) == Some(t@),
            None => kv_binding(node@, key@) is None,
        },
{
    let entries = match node {
        DynamicValue::Obj(entries) => entries,
        _ => {
            return None;
        },
    };
    let kv_entries = match obj_get(entries, "KeyValue") {
        Some(DynamicValue::Obj(kv_entries)) => kv_entries,
        _ => {
            return None;
        },
    };
    let parts = match obj_get(kv_entries, "from") {
        Some(DynamicValue::Arr(parts)) => parts,
        _ => {
            return None;
        },
    };
    if parts.len() != 1 {
        return None;
    }
    proof {
        // The single part's slot in the model is the model of that part.
        assert(arr_view(parts@)[0] == val_of(parts@[0]));
    }
    let part_entries = match &parts[0] {
        DynamicValue::Obj(part_entries) => part_entries,
        _ => {
            return None;
        },
    };
    let raw_entries = match obj_get(part_entries, "Raw") {
        Some(DynamicValue::Obj(raw_entries)) => raw_entries,
        _ => {
            return None;
        },
    };
    let content = match obj_get(raw_entries, "content") {
        Some(DynamicValue::Str(content)) => content,
        _ => {
            return None;
        },
    };
    if str_eq(content.as_str(), key) {
        obj_get(kv_entries, "to")
    } else {
        None
    }
}

/// Searches a tree in dynamic-value shape for the first `KeyValue` binding
/// of `key` in document order and returns its still-dynamic `to` value, or
/// nothing when no binding matches. Unexpected shapes are skipped silently.
/// Tree depth is input-controlled, so the walk is depth-guarded: a tree
/// nested more deeply than [`MAX_DEPTH`] is rejected with the distinguished
/// too-deep condition instead of overflowing the call stack.
pub fn find_key_pair<'a>(node: &'a DynamicValue, key: &str) -> (r: Result<
    Option<&'a DynamicValue>,
    DepthError,
>)
    ensures
        match r {
            Ok(Some(t)) => find_binding(node@, key@) == Some(t@),
            Ok(None) => find_binding(node@, key@) is None,
            Err(e) => val_depth(node@) > MAX_DEPTH && e == DepthError::TooDeep,
        },
{
    find_key_pair_rec(node, key, MAX_DEPTH)
}

/// Recursive worker for [`find_key_pair`]: `budget` is the remaining allowed
/// depth.
fn find_key_pair_rec<'a>(node: &'a DynamicValue, key: &str, budget: u64) -> (r: Result<
    Option<&'a DynamicValue>,
    DepthError,
>)
    ensures
        match r {
            Ok(Some(t)) => find_binding(node@, key@) == Some(t@),
            Ok(None) => find_binding(node@, key@) is None,
            Err(e) => val_depth(node@) > budget && e == DepthError::TooDeep,
        },
    decreases budget,
{
    if budget == 0 {
        return Err(DepthError::TooDeep);
    }
    match node {
        DynamicValue::Obj(entries) => {
            let local = process_keyvalue(node, key);
            if let Some(t) = local {
                return Ok(Some(t));
            }
            let ghost model = entries_view(entries@);
            let mut idx: usize = 0;
            while idx < entries.len()
                invariant
                    0 <= idx <= entries.len(),
                    budget >= 1,
                    model == entries_view(entries@),
                    model.len() == entries@.len(),
                    node@ == Val::Obj(model),
                    kv_binding(node@, key@) is None,
                    find_in_obj(model, key@, 0) == find_in_obj(model, key@, idx as int),
                decreases entries.len() - idx,
            {
                match find_key_pair_rec(&entries[idx].1, key, budget - 1) {
                    Ok(Some(t)) => {
                        return Ok(Some(t));
                    },
                    Ok(None) => {},
                    Err(e) => {
                        proof {
                            lemma_obj_depth_ge(model, 0, idx as int);
                        }
                        return Err(e);
                    },
                }
                idx = idx + 1;
            }
            Ok(None)
        },
        DynamicValue::Arr(items) => {
            let ghost model = arr_view(items@);
            let mut idx: usize = 0;
            while idx < items.len()
                invariant
                    0 <= idx <= items.len(),
                    budget >= 1,
                    model == arr_view(items@),
                    model.len() == items@.len(),
                    node@ == Val::Arr(model),
                    find_in_arr(model, key@, 0) == find_in_arr(model, key@, idx as int),
                decreases items.len() - idx,
            {
                match find_key_pair_rec(&items[idx], key, budget - 1) {
                    Ok(Some(t)) => {
                        return Ok(Some(t));
                    },
                    Ok(None) => {},
                    Err(e) => {
                        proof {
                            lemma_arr_depth_ge(model, 0, idx as int);
                        }
                        return Err(e);
                    },
                }
                idx = idx + 1;
            }
            Ok(None)
        },
        _ => Ok(None),
    }
}

/// A node in dynamic-value shape that anywhere carries a map with a
/// `KeyValue` entry. Trees without one hold no binding shape at all.
pub open spec fn mentions_keyvalue(v: Val) -> bool
    decreases v, 0int,
{
    match v {
        Val::Obj(entries) => !(obj_lookup(entries, "KeyValue"@, 0) is None) || obj_mentions(
            entries,
            0,
        ),
        Val::Arr(items) => arr_mentions(items, 0),
        _ => false,
    }
}

/// Some entry value of `entries[i..]` mentions a `KeyValue` entry.
pub open spec fn obj_mentions(entries: Seq<(Seq<char>, Val)>, i: int) -> bool
    decreases entries, entries.len() - i,
{
    if 0 <= i < entries.len() {
        mentions_keyvalue(entries[i].1) || obj_mentions(entries, i + 1)
    } else {
        false
    }
}

/// Some element of `items[i..]` mentions a `KeyValue` entry.
pub open spec fn arr_mentions(items: Seq<Val>, i: int) -> bool
    decreases items, items.len() - i,
{
    if 0 <= i < items.len() {
        mentions_keyvalue(items[i]) || arr_mentions(items, i + 1)
    } else {
        false
    }
}

/// Tolerance: on a tree of arbitrary nesting that holds no binding shape —
/// no map with a `KeyValue` entry — the search returns absent, whatever the
/// key.
pub proof fn lemma_resolver_tolerant(v: Val, key: Seq<char>)
    requires
        !mentions_keyvalue(v),
    ensures
        find_binding(v, key) is None,
    decreases v, 0int,
{
    match v {
        Val::Obj(entries) => {
            lemma_resolver_tolerant_obj(entries, key, 0);
        },
        Val::Arr(items) => {
            lemma_resolver_tolerant_arr(items, key, 0);
        },
        _ => {},
    }
}

/// Helper for [`lemma_resolver_tolerant`]: entry values free of binding
/// shapes yield no match.
proof fn lemma_resolver_tolerant_obj(entries: Seq<(Seq<char>, Val)>, key: Seq<char>, i: int)
    requires
        0 <= i,
        !obj_mentions(entries, i),
    ensures
        find_in_obj(entries, key, i) is None,
    decreases entries, entries.len() - i,
{
    if i < entries.len() {
        lemma_resolver_tolerant(entries[i].1, key);
        lemma_resolver_tolerant_obj(entries, key, i + 1);
    }
}

/// Helper for [`lemma_resolver_tolerant`]: elements free of binding shapes
/// yield no match.
proof fn lemma_resolver_tolerant_arr(items: Seq<Val>, key: Seq<char>, i: int)
    requires
        0 <= i,
        !arr_mentions(items, i),
    ensures
        find_in_arr(items, key, i) is None,
    decreases items, items.len() - i,
{
    if i < items.len() {
        lemma_resolver_tolerant(items[i], key);
        lemma_resolver_tolerant_arr(items, key, i + 1);
    }
}

/// Idempotence: the search is a function of the tree and the key alone, so
/// repeated calls with identical arguments on an immutable tree return equal
/// results.
pub proof fn lemma_resolver_idempotent(v1: Val, v2: Val, key1: Seq<char>, key2: Seq<char>)
    requires
        v1 == v2,
        key1 == key2,
    ensures
        find_binding(v1, key1) == find_binding(v2, key2),
{
}

} // verus!
