//! Flattening: visiting a tree in document order and collecting its scalar
//! leaves, with map keys emitted just before the leaves of the value they
//! name. Conversion preserves the flattening: same leaves, same order, same
//! key order.

use vstd::prelude::*;

use crate::convert::convert_entry_models;
use crate::convert::convert_model;
use crate::convert::convert_models;
use crate::value::DynModel;
use crate::value::SerModel;

verus! {

/// One token of a flattened tree: a scalar leaf, or the key under which the
/// following leaves sit. Numbers appear by their classified value, the value
/// conversion gives them.
pub enum Leaf {
    Null,
    Bool(bool),
    UInt64(u64),
    Int64(i64),
    Float64(u64),
    Text(Seq<char>),
    Key(Seq<char>),
}

/// The leaves of a serialized tree in document order, numbers classified.
pub open spec fn ser_flat(s: SerModel) -> Seq<Leaf>
    decreases s, 2int,
{
    match s {
        SerModel::Null => seq![Leaf::Null],
        SerModel::Bool(b) => seq![Leaf::Bool(b)],
        SerModel::NumU(u) => seq![Leaf::UInt64(u)],
        SerModel::NumI(i) => if i >= 0 {
            seq![Leaf::UInt64(i as u64)]
        } else {
            seq![Leaf::Int64(i)]
        },
        SerModel::NumF(bits) => seq![Leaf::Float64(bits)],
        SerModel::Text(t) => seq![Leaf::Text(t)],
        SerModel::Arr(elems) => ser_flat_seq(elems),
        SerModel::Obj(entries) => ser_flat_entries(entries),
    }
}

/// The leaves of a sequence of serialized trees, concatenated in order.
pub open spec fn ser_flat_seq(s: Seq<SerModel>) -> Seq<Leaf>
    decreases s, 1int,
{
    if s.len() == 0 {
        Seq::empty()
    } else {
        ser_flat(s[0]) + ser_flat_seq(s.subrange(1, s.len() as int))
    }
}

/// The leaves of a sequence of keyed serialized trees: each key, then the
/// leaves of its value, in entry order.
pub open spec fn ser_flat_entries(s: Seq<(Seq<char>, SerModel)>) -> Seq<Leaf>
    decreases s, 1int,
{
    if s.len() == 0 {
        Seq::empty()
    } else {
        seq![Leaf::Key(s[0].0)] + ser_flat(s[0].1) + ser_flat_entries(s.subrange(1, s.len() as int))
    }
}

/// The leaves of a dynamic tree in document order.
pub open spec fn dyn_flat(d: DynModel) -> Seq<Leaf>
    decreases d, 2int,
{
    match d {
        DynModel::Null => seq![Leaf::Null],
        DynModel::Bool(b) => seq![Leaf::Bool(b)],
        DynModel::UInt64(u) => seq![Leaf::UInt64(u)],
        DynModel::Int64(i) => seq![Leaf::Int64(i)],
        DynModel::Float64(bits) => seq![Leaf::Float64(bits)],
        DynModel::Text(t) => seq![Leaf::Text(t)],
        DynModel::Sequence(elems) => dyn_flat_seq(elems),
        DynModel::Mapping(entries) => dyn_flat_entries(entries),
    }
}

/// The leaves of a sequence of dynamic trees, concatenated in order.
pub open spec fn dyn_flat_seq(s: Seq<DynModel>) -> Seq<Leaf>
    decreases s, 1int,
{
    if s.len() == 0 {
        Seq::empty()
    } else {
        dyn_flat(s[0]) + dyn_flat_seq(s.subrange(1, s.len() as int))
    }
}

/// The leaves of a sequence of keyed dynamic trees: each key, then the leaves
/// of its value, in entry order.
pub open spec fn dyn_flat_entries(s: Seq<(Seq<char>, DynModel)>) -> Seq<Leaf>
    decreases s, 1int,
{
    if s.len() == 0 {
        Seq::empty()
    } else {
        seq![Leaf::Key(s[0].0)] + dyn_flat(s[0].1) + dyn_flat_entries(s.subrange(1, s.len() as int))
    }
}

/// Structural fidelity: converting a serialized tree and then flattening the
/// result yields exactly the leaves of the input, in the same document order
/// and with the same map key order.
pub proof fn lemma_structural_fidelity(s: SerModel)
    ensures
        dyn_flat(convert_model(s)) == ser_flat(s),
    decreases s, 2int,
{
    match s {
        SerModel::Arr(elems) => {
            lemma_structural_fidelity_seq(elems);
        },
        SerModel::Obj(entries) => {
            lemma_structural_fidelity_entries(entries);
        },
        _ => {},
    }
}

/// Structural fidelity for a sequence of trees.
pub proof fn lemma_structural_fidelity_seq(elems: Seq<SerModel>)
    ensures
        dyn_flat_seq(convert_models(elems)) == ser_flat_seq(elems),
    decreases elems, 1int,
{
    if elems.len() == 0 {
        assert(convert_models(elems).len() == 0);
    } else {
        let rest = elems.subrange(1, elems.len() as int);
        let cms = convert_models(elems);
        assert(cms == seq![convert_model(elems[0])] + convert_models(rest));
        assert(cms[0] == convert_model(elems[0]));
        assert(cms.subrange(1, cms.len() as int) =~= convert_models(rest));
        lemma_structural_fidelity(elems[0]);
        lemma_structural_fidelity_seq(rest);
    }
}

/// Structural fidelity for a sequence of keyed trees.
pub proof fn lemma_structural_fidelity_entries(entries: Seq<(Seq<char>, SerModel)>)
    ensures
        dyn_flat_entries(convert_entry_models(entries)) == ser_flat_entries(entries),
    decreases entries, 1int,
{
    if entries.len() == 0 {
        assert(convert_entry_models(entries).len() == 0);
    } else {
        let rest = entries.subrange(1, entries.len() as int);
        let cms = convert_entry_models(entries);
        assert(cms == seq![(entries[0].0, convert_model(entries[0].1))] + convert_entry_models(
            rest,
        ));
        assert(cms[0] == (entries[0].0, convert_model(entries[0].1)));
        assert(cms.subrange(1, cms.len() as int) =~= convert_entry_models(rest));
        lemma_structural_fidelity(entries[0].1);
        lemma_structural_fidelity_entries(rest);
    }
}

} // verus!
