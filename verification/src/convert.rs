//! The converter: turns one serialized tree into the dynamic value tree a
//! consumer receives. Total over well-formed input, preserves structure,
//! element order and map key order, and classifies every number as `UInt64`,
//! `Int64` or `Float64`, in that priority order.

use vstd::prelude::*;

use crate::value::DynModel;
use crate::value::DynamicValue;
use crate::value::SerModel;
use crate::value::SerializedValue;
use crate::value::dyn_entry_models;
use crate::value::dyn_models;
use crate::value::lemma_dyn_entry_models;
use crate::value::lemma_dyn_models;
use crate::value::lemma_ser_entry_models;
use crate::value::lemma_ser_models;
use crate::value::ser_entry_models;
use crate::value::ser_models;

verus! {

/// What conversion does to one tree: scalars keep their value, a number
/// representable as an unsigned 64-bit integer becomes `UInt64`, any other
/// signed 64-bit integer becomes `Int64`, any other number becomes `Float64`
/// with the same bit pattern, and sequences and maps convert recursively in
/// their original order.
pub open spec fn convert_model(s: SerModel) -> DynModel
    decreases s, 2int,
{
    match s {
        SerModel::Null => DynModel::Null,
        SerModel::Bool(b) => DynModel::Bool(b),
        SerModel::NumU(u) => DynModel::UInt64(u),
        SerModel::NumI(i) => if i >= 0 {
            DynModel::UInt64(i as u64)
        } else {
            DynModel::Int64(i)
        },
        SerModel::NumF(bits) => DynModel::Float64(bits),
        SerModel::Text(t) => DynModel::Text(t),
        SerModel::Arr(elems) => DynModel::Sequence(convert_models(elems)),
        SerModel::Obj(entries) => DynModel::Mapping(convert_entry_models(entries)),
    }
}

/// Conversion of a sequence of trees, elementwise and in order.
pub open spec fn convert_models(s: Seq<SerModel>) -> Seq<DynModel>
    decreases s, 1int,
{
    if s.len() == 0 {
        Seq::empty()
    } else {
        seq![convert_model(s[0])] + convert_models(s.subrange(1, s.len() as int))
    }
}

/// Conversion of a sequence of keyed trees, keys and order kept.
pub open spec fn convert_entry_models(s: Seq<(Seq<char>, SerModel)>) -> Seq<(Seq<char>, DynModel)>
    decreases s, 1int,
{
    if s.len() == 0 {
        Seq::empty()
    } else {
        seq![(s[0].0, convert_model(s[0].1))] + convert_entry_models(s.subrange(1, s.len() as int))
    }
}

/// `convert_models` maps the sequence pointwise.
pub proof fn lemma_convert_models(s: Seq<SerModel>)
    ensures
        convert_models(s).len() == s.len(),
        forall|i: int| 0 <= i < s.len() ==> convert_models(s)[i] == convert_model(s[i]),
    decreases s.len(),
{
    if s.len() > 0 {
        lemma_convert_models(s.subrange(1, s.len() as int));
        assert forall|i: int| 0 <= i < s.len() implies convert_models(s)[i] == convert_model(
            s[i],
        ) by {
            if i > 0 {
                assert(s.subrange(1, s.len() as int)[i - 1] == s[i]);
            }
        }
    }
}

/// `convert_entry_models` maps the sequence pointwise.
pub proof fn lemma_convert_entry_models(s: Seq<(Seq<char>, SerModel)>)
    ensures
        convert_entry_models(s).len() == s.len(),
        forall|i: int| 0 <= i < s.len() ==> convert_entry_models(s)[i] == (
            s[i].0,
            convert_model(s[i].1),
        ),
    decreases s.len(),
{
    if s.len() > 0 {
        lemma_convert_entry_models(s.subrange(1, s.len() as int));
        assert forall|i: int| 0 <= i < s.len() implies convert_entry_models(s)[i] == (
        s[i].0,
        convert_model(s[i].1),
        ) by {
            if i > 0 {
                assert(s.subrange(1, s.len() as int)[i - 1] == s[i]);
            }
        }
    }
}

/// Converts one serialized tree into the dynamic value delivered to
/// consumers. Total: it never fails on a well-formed serialized tree.
#[verifier::loop_isolation(false)]
pub fn convert(s: &SerializedValue) -> (r: DynamicValue)
    ensures
        r.model() == convert_model(s.model()),
    decreases *s,
{
    match s {
        SerializedValue::Null => DynamicValue::Null,
        SerializedValue::Bool(b) => DynamicValue::Bool(*b),
        SerializedValue::NumU(u) => DynamicValue::UInt64(*u),
        SerializedValue::NumI(i) => if *i >= 0 {
            DynamicValue::UInt64(*i as u64)
        } else {
            DynamicValue::Int64(*i)
        },
        SerializedValue::NumF(bits) => DynamicValue::Float64(*bits),
        SerializedValue::Text(t) => DynamicValue::Text(t.clone()),
        SerializedValue::Arr(elems) => {
            let mut out: Vec<DynamicValue> = Vec::new();
            let mut j: usize = 0;
            while j < elems.len()
                invariant
                    j <= elems@.len(),
                    out@.len() == j,
                    forall|i: int| 0 <= i < j ==> out@[i].model() == convert_model(
                        elems@[i].model(),
                    ),
                decreases elems@.len() - j,
            {
                proof {
                    assert(decreases_to!(*s => s->Arr_0));
                    assert(s->Arr_0 == *elems);
                    assert(decreases_to!(*elems => elems@));
                    assert(decreases_to!(elems@ => elems@[j as int]));
                    assert(decreases_to!(*s => elems@[j as int]));
                }
                let d = convert(&elems[j]);
                out.push(d);
                j = j + 1;
            }
            proof {
                lemma_dyn_models(out@);
                lemma_ser_models(elems@);
                lemma_convert_models(ser_models(elems@));
                assert(dyn_models(out@) =~= convert_models(ser_models(elems@)));
            }
            DynamicValue::Sequence(out)
        },
        SerializedValue::Obj(entries) => {
            let mut out: Vec<(String, DynamicValue)> = Vec::new();
            let mut j: usize = 0;
            while j < entries.len()
                invariant
                    j <= entries@.len(),
                    out@.len() == j,
                    forall|i: int| 0 <= i < j ==> out@[i].0@ == entries@[i].0@
                        && out@[i].1.model() == convert_model(entries@[i].1.model()),
                decreases entries@.len() - j,
            {
                proof {
                    assert(decreases_to!(*s => s->Obj_0));
                    assert(s->Obj_0 == *entries);
                    assert(decreases_to!(*entries => entries@));
                    assert(decreases_to!(entries@ => entries@[j as int]));
                    assert(decreases_to!(entries@[j as int] => entries@[j as int].1));
                    assert(decreases_to!(*s => entries@[j as int].1));
                }
                let entry = &entries[j];
                let k = entry.0.clone();
                let d = convert(&entry.1);
                out.push((k, d));
                j = j + 1;
            }
            proof {
                lemma_dyn_entry_models(out@);
                lemma_ser_entry_models(entries@);
                lemma_convert_entry_models(ser_entry_models(entries@));
                assert(dyn_entry_models(out@) =~= convert_entry_models(
                    ser_entry_models(entries@),
                ));
            }
            DynamicValue::Mapping(out)
        },
    }
}

/// Numeric classification, value preserved: a number representable as an
/// unsigned 64-bit integer converts to `UInt64` of the same value, any other
/// signed 64-bit integer to `Int64` of the same value, and any other number
/// to `Float64` with the same bit pattern.
pub proof fn lemma_numeric_classification(u: u64, i: i64, bits: u64)
    ensures
        convert_model(SerModel::NumU(u)) == DynModel::UInt64(u),
        i >= 0 ==> convert_model(SerModel::NumI(i)) == DynModel::UInt64(i as u64) && (i as u64)
            == i,
        i < 0 ==> convert_model(SerModel::NumI(i)) == DynModel::Int64(i),
        convert_model(SerModel::NumF(bits)) == DynModel::Float64(bits),
{
}

} // verus!
