//! The six-shape generic value model: null, boolean, number (64-bit integer
//! or 64-bit float), string, ordered array, ordered string-keyed map.
//! Map entry order is the insertion order of the producer; duplicate keys are
//! tolerated and resolved to the first occurrence.

use vstd::prelude::*;

verus! {

/// The deepest nesting the bridge and the resolver will traverse. Tree depth
/// is input-controlled, so both bound their recursion explicitly instead of
/// overflowing the call stack.
pub const MAX_DEPTH: u64 = 256;

/// The distinguished condition for a tree nested more deeply than
/// [`MAX_DEPTH`].
#[derive(Debug, Clone, Copy, PartialEq, Eq, Structural)]
pub enum DepthError {
    TooDeep,
}

/// A value in the six-shape generic form exchanged with the parsing
/// collaborator. A number is either an exact integer in 64-bit signed range
/// or a 64-bit float; the float is carried as its shortest decimal rendering,
/// which parses back to the identical float, so that the tree itself stays
/// free of machine floating-point arithmetic.
#[derive(Debug, PartialEq, Eq)]
pub enum DynamicValue {
    Null,
    Bool(bool),
    Int(i64),
    Float(String),
    Str(String),
    Arr(Vec<DynamicValue>),
    Obj(Vec<(String, DynamicValue)>),
}

/// The mathematical model of a `DynamicValue`: the same tree with sequences
/// in place of vectors and character sequences in place of strings.
#[verifier::ext_equal]
pub enum Val {
    Null,
    Bool(bool),
    Int(i64),
    Float(Seq<char>),
    Str(Seq<char>),
    Arr(Seq<Val>),
    Obj(Seq<(Seq<char>, Val)>),
}

/// The model of a sequence of array elements.
pub open spec fn arr_view(items: Seq<DynamicValue>) -> Seq<Val>
    decreases items, 0int,
{
    Seq::new(
        items.len(),
        |i: int|
            if 0 <= i < items.len() {
                val_of(items[i])
            } else {
                Val::Null
            },
    )
}

/// The model of a sequence of map entries.
pub open spec fn entries_view(entries: Seq<(String, DynamicValue)>) -> Seq<(Seq<char>, Val)>
    decreases entries, 0int,
{
    Seq::new(
        entries.len(),
        |i: int|
            if 0 <= i < entries.len() {
                (entries[i].0@, val_of(entries[i].1))
            } else {
                (Seq::empty(), Val::Null)
            },
    )
}

/// The model of a `DynamicValue`.
pub open spec fn val_of(v: DynamicValue) -> Val
    decreases v, 1int,
{
    match v {
        DynamicValue::Null => Val::Null,
        DynamicValue::Bool(b) => Val::Bool(b),
        DynamicValue::Int(i) => Val::Int(i),
        DynamicValue::Float(text) => Val::Float(text@),
        DynamicValue::Str(s) => Val::Str(s@),
        DynamicValue::Arr(items) => Val::Arr(arr_view(items@)),
        DynamicValue::Obj(entries) => Val::Obj(entries_view(entries@)),
    }
}

impl View for DynamicValue {
    type V = Val;

    open spec fn view(&self) -> Val {
        val_of(*self)
    }
}

/// Nesting depth of a value: scalars have depth 1, and a composite is one
/// deeper than its deepest child (an empty composite has depth 1).
pub open spec fn val_depth(v: Val) -> nat
    decreases v, 1int,
{
    match v {
        Val::Arr(items) => 1 + arr_depth(items, 0),
        Val::Obj(entries) => 1 + obj_depth(entries, 0),
        _ => 1,
    }
}

/// The deepest child among `items[i..]`.
pub open spec fn arr_depth(items: Seq<Val>, i: int) -> nat
    decreases items, items.len() - i,
{
    if 0 <= i < items.len() {
        let d = val_depth(items[i]);
        let rest = arr_depth(items, i + 1);
        if d >= rest {
            d
        } else {
            rest
        }
    } else {
        0
    }
}

/// The deepest entry value among `entries[i..]`.
pub open spec fn obj_depth(entries: Seq<(Seq<char>, Val)>, i: int) -> nat
    decreases entries, entries.len() - i,
{
    if 0 <= i < entries.len() {
        let d = val_depth(entries[i].1);
        let rest = obj_depth(entries, i + 1);
        if d >= rest {
            d
        } else {
            rest
        }
    } else {
        0
    }
}

/// Every array element is at most as deep as the deepest element.
pub proof fn lemma_arr_depth_ge(items: Seq<Val>, i: int, j: int)
    requires
        0 <= i <= j < items.len(),
    ensures
        val_depth(items[j]) <= arr_depth(items, i),
    decreases j - i,
{
    if i < j {
        lemma_arr_depth_ge(items, i + 1, j);
    }
}

/// A bound on every array element bounds the deepest element.
pub proof fn lemma_arr_depth_le(items: Seq<Val>, i: int, bound: nat)
    requires
        0 <= i <= items.len(),
        forall|j: int| i <= j < items.len() ==> val_depth(#[trigger] items[j]) <= bound,
    ensures
        arr_depth(items, i) <= bound,
    decreases items.len() - i,
{
    if i < items.len() {
        lemma_arr_depth_le(items, i + 1, bound);
    }
}

/// Every map entry value is at most as deep as the deepest entry value.
pub proof fn lemma_obj_depth_ge(entries: Seq<(Seq<char>, Val)>, i: int, j: int)
    requires
        0 <= i <= j < entries.len(),
    ensures
        val_depth(entries[j].1) <= obj_depth(entries, i),
    decreases j - i,
{
    if i < j {
        lemma_obj_depth_ge(entries, i + 1, j);
    }
}

/// A bound on every map entry value bounds the deepest entry value.
pub proof fn lemma_obj_depth_le(entries: Seq<(Seq<char>, Val)>, i: int, bound: nat)
    requires
        0 <= i <= entries.len(),
        forall|j: int| i <= j < entries.len() ==> val_depth(#[trigger] entries[j].1) <= bound,
    ensures
        obj_depth(entries, i) <= bound,
    decreases entries.len() - i,
{
    if i < entries.len() {
        lemma_obj_depth_le(entries, i + 1, bound);
    }
}

} // verus!
