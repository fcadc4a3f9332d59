//! The two tree types the system trades in: the serialized form an event is
//! first rendered into, and the dynamic value a consumer receives, together
//! with their mathematical models.

use vstd::prelude::*;

verus! {

/// Model of one node of a serialized (JSON-like) tree: the value a
/// `SerializedValue` stands for, with text as character sequences.
pub enum SerModel {
    Null,
    Bool(bool),
    NumU(u64),
    NumI(i64),
    NumF(u64),
    Text(Seq<char>),
    Arr(Seq<SerModel>),
    Obj(Seq<(Seq<char>, SerModel)>),
}

/// Model of one node of a dynamic value tree, after numeric classification:
/// integers representable as unsigned 64-bit stand as `UInt64`, the remaining
/// signed ones as `Int64`, and non-integral numbers as `Float64`, which holds
/// the bit pattern of the binary64 value.
pub enum DynModel {
    Null,
    Bool(bool),
    UInt64(u64),
    Int64(i64),
    Float64(u64),
    Text(Seq<char>),
    Sequence(Seq<DynModel>),
    Mapping(Seq<(Seq<char>, DynModel)>),
}

/// The intermediate serialized form of an event, a JSON-like tree. A number
/// keeps the representation its source presented: an unsigned 64-bit integer,
/// a signed 64-bit integer, or a binary64 value carried as its bit pattern.
/// Map entries keep the order in which the source presented its keys.
#[derive(Debug, PartialEq, Eq)]
pub enum SerializedValue {
    Null,
    Bool(bool),
    NumU(u64),
    NumI(i64),
    NumF(u64),
    Text(String),
    Arr(Vec<SerializedValue>),
    Obj(Vec<(String, SerializedValue)>),
}

/// The dynamic, self-describing value delivered to consumers: the universal
/// payload type. `Float64` carries the bit pattern of the binary64 value, so
/// that the tree stays free of floating-point arithmetic. Map entries are in
/// source key order.
#[derive(Debug, PartialEq, Eq)]
pub enum DynamicValue {
    Null,
    Bool(bool),
    UInt64(u64),
    Int64(i64),
    Float64(u64),
    Text(String),
    Sequence(Vec<DynamicValue>),
    Mapping(Vec<(String, DynamicValue)>),
}

impl SerializedValue {
    /// The tree this value stands for.
    pub open spec fn model(self) -> SerModel
        decreases self, 2int,
    {
        match self {
            SerializedValue::Null => SerModel::Null,
            SerializedValue::Bool(b) => SerModel::Bool(b),
            SerializedValue::NumU(u) => SerModel::NumU(u),
            SerializedValue::NumI(i) => SerModel::NumI(i),
            SerializedValue::NumF(bits) => SerModel::NumF(bits),
            SerializedValue::Text(t) => SerModel::Text(t@),
            SerializedValue::Arr(elems) => SerModel::Arr(ser_models(elems@)),
            SerializedValue::Obj(entries) => SerModel::Obj(ser_entry_models(entries@)),
        }
    }
}

/// The models of a sequence of serialized values, in order.
pub open spec fn ser_models(s: Seq<SerializedValue>) -> Seq<SerModel>
    decreases s, 1int,
{
    if s.len() == 0 {
        Seq::empty()
    } else {
        seq![s[0].model()] + ser_models(s.subrange(1, s.len() as int))
    }
}

/// The models of a sequence of keyed serialized values, keys and order kept.
pub open spec fn ser_entry_models(s: Seq<(String, SerializedValue)>) -> Seq<(Seq<char>, SerModel)>
    decreases s, 1int,
{
    if s.len() == 0 {
        Seq::empty()
    } else {
        seq![(s[0].0@, s[0].1.model())] + ser_entry_models(s.subrange(1, s.len() as int))
    }
}

impl DynamicValue {
    /// The tree this value stands for.
    pub open spec fn model(self) -> DynModel
        decreases self, 2int,
    {
        match self {
            DynamicValue::Null => DynModel::Null,
            DynamicValue::Bool(b) => DynModel::Bool(b),
            DynamicValue::UInt64(u) => DynModel::UInt64(u),
            DynamicValue::Int64(i) => DynModel::Int64(i),
            DynamicValue::Float64(bits) => DynModel::Float64(bits),
            DynamicValue::Text(t) => DynModel::Text(t@),
            DynamicValue::Sequence(elems) => DynModel::Sequence(dyn_models(elems@)),
            DynamicValue::Mapping(entries) => DynModel::Mapping(dyn_entry_models(entries@)),
        }
    }
}

/// The models of a sequence of dynamic values, in order.
pub open spec fn dyn_models(s: Seq<DynamicValue>) -> Seq<DynModel>
    decreases s, 1int,
{
    if s.len() == 0 {
        Seq::empty()
    } else {
        seq![s[0].model()] + dyn_models(s.subrange(1, s.len() as int))
    }
}

/// The models of a sequence of keyed dynamic values, keys and order kept.
pub open spec fn dyn_entry_models(s: Seq<(String, DynamicValue)>) -> Seq<(Seq<char>, DynModel)>
    decreases s, 1int,
{
    if s.len() == 0 {
        Seq::empty()
    } else {
        seq![(s[0].0@, s[0].1.model())] + dyn_entry_models(s.subrange(1, s.len() as int))
    }
}

/// `ser_models` maps the sequence pointwise.
pub proof fn lemma_ser_models(s: Seq<SerializedValue>)
    ensures
        ser_models(s).len() == s.len(),
        forall|i: int| 0 <= i < s.len() ==> ser_models(s)[i] == s[i].model(),
    decreases s.len(),
{
    if s.len() > 0 {
        lemma_ser_models(s.subrange(1, s.len() as int));
        assert forall|i: int| 0 <= i < s.len() implies ser_models(s)[i] == s[i].model() by {
            if i > 0 {
                assert(s.subrange(1, s.len() as int)[i - 1] == s[i]);
            }
        }
    }
}

/// `ser_entry_models` maps the sequence pointwise.
pub proof fn lemma_ser_entry_models(s: Seq<(String, SerializedValue)>)
    ensures
        ser_entry_models(s).len() == s.len(),
        forall|i: int| 0 <= i < s.len() ==> ser_entry_models(s)[i] == (s[i].0@, s[i].1.model()),
    decreases s.len(),
{
    if s.len() > 0 {
        lemma_ser_entry_models(s.subrange(1, s.len() as int));
        assert forall|i: int| 0 <= i < s.len() implies ser_entry_models(s)[i] == (
        s[i].0@,
        s[i].1.model(),
        ) by {
            if i > 0 {
                assert(s.subrange(1, s.len() as int)[i - 1] == s[i]);
            }
        }
    }
}

/// `dyn_models` maps the sequence pointwise.
pub proof fn lemma_dyn_models(s: Seq<DynamicValue>)
    ensures
        dyn_models(s).len() == s.len(),
        forall|i: int| 0 <= i < s.len() ==> dyn_models(s)[i] == s[i].model(),
    decreases s.len(),
{
    if s.len() > 0 {
        lemma_dyn_models(s.subrange(1, s.len() as int));
        assert forall|i: int| 0 <= i < s.len() implies dyn_models(s)[i] == s[i].model() by {
            if i > 0 {
                assert(s.subrange(1, s.len() as int)[i - 1] == s[i]);
            }
        }
    }
}

/// `dyn_entry_models` maps the sequence pointwise.
pub proof fn lemma_dyn_entry_models(s: Seq<(String, DynamicValue)>)
    ensures
        dyn_entry_models(s).len() == s.len(),
        forall|i: int| 0 <= i < s.len() ==> dyn_entry_models(s)[i] == (s[i].0@, s[i].1.model()),
    decreases s.len(),
{
    if s.len() > 0 {
        lemma_dyn_entry_models(s.subrange(1, s.len() as int));
        assert forall|i: int| 0 <= i < s.len() implies dyn_entry_models(s)[i] == (
        s[i].0@,
        s[i].1.model(),
        ) by {
            if i > 0 {
                assert(s.subrange(1, s.len() as int)[i - 1] == s[i]);
            }
        }
    }
}

} // verus!
