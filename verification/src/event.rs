//! The event serializer: reduces one platform filesystem-change notification
//! to plain values and renders it as a serialized tree — the kind of change
//! as an enumerated string tag, the affected paths as a sequence of strings.

use vstd::prelude::*;

use crate::convert::convert;
use crate::convert::convert_model;
use crate::value::SerModel;
use crate::value::SerializedValue;
use crate::value::DynModel;
use crate::value::DynamicValue;
use crate::value::lemma_ser_entry_models;
use crate::value::lemma_ser_models;
use crate::value::ser_entry_models;
use crate::value::ser_models;

verus! {

broadcast use vstd::string::group_string_axioms;

/// The platform filesystem-change notification, kept opaque: only the
/// trusted extractor below reads it.
#[verifier::external_type_specification]
#[verifier::external_body]
pub struct ExEvent(notify::Event);

/// The kinds of filesystem change the system distinguishes, one tag per
/// family of platform event kinds; a modification of a file's name stands
/// apart as a rename.
#[derive(Clone, Copy, Debug, PartialEq, Eq)]
pub enum ChangeKind {
    Any,
    Access,
    Create,
    Modify,
    Rename,
    Remove,
    Other,
}

/// The kind of change a platform event reports, reduced to this system's
/// enumerated kinds. A function of the event alone.
pub uninterp spec fn event_kind_of(e: notify::Event) -> ChangeKind;

/// The paths a platform event affects, rendered as character sequences, in
/// the event's order. A function of the event alone.
pub uninterp spec fn event_paths_of(e: notify::Event) -> Seq<Seq<char>>;

/// One filesystem change, reduced to the plain values the serializer reads:
/// the kind of change and the affected paths.
pub struct EventData {
    pub kind: ChangeKind,
    pub paths: Vec<String>,
}

impl EventData {
    /// The affected paths as character sequences, in order.
    pub open spec fn paths_model(self) -> Seq<Seq<char>> {
        self.paths@.map_values(|p: String| p@)
    }
}

/// The string tag of a change kind.
pub open spec fn kind_tag(k: ChangeKind) -> Seq<char> {
    match k {
        ChangeKind::Any => "any"@,
        ChangeKind::Access => "access"@,
        ChangeKind::Create => "create"@,
        ChangeKind::Modify => "modify"@,
        ChangeKind::Rename => "rename"@,
        ChangeKind::Remove => "remove"@,
        ChangeKind::Other => "other"@,
    }
}

/// The serialized tree a change event is rendered into: a map holding the
/// kind's string tag under "kind" and the affected paths, each a string,
/// under "paths", in that key order.
pub open spec fn event_tree(k: ChangeKind, paths: Seq<Seq<char>>) -> SerModel {
    SerModel::Obj(
        seq![
            ("kind"@, SerModel::Text(kind_tag(k))),
            ("paths"@, SerModel::Arr(paths.map_values(|p: Seq<char>| SerModel::Text(p)))),
        ],
    )
}

/// The dynamic value that one change event, given by kind and paths, is
/// delivered as: its serialized tree, converted.
pub open spec fn delivered_model(ev: (ChangeKind, Seq<Seq<char>>)) -> DynModel {
    convert_model(event_tree(ev.0, ev.1))
}

/// The values delivered for a sequence of platform events: for each event,
/// its kind and paths serialized and converted, in the events' order.
pub open spec fn received_models(es: Seq<notify::Event>) -> Seq<DynModel> {
    Seq::new(es.len(), |i: int| delivered_model((event_kind_of(es[i]), event_paths_of(es[i]))))
}

/// Ordering of delivery over a received sequence: one value per event, the
/// value at each position the conversion of that event's serialized tree.
pub proof fn lemma_delivery_order(es: Seq<notify::Event>)
    ensures
        received_models(es).len() == es.len(),
        forall|i: int| 0 <= i < es.len() ==> received_models(es)[i] == delivered_model(
            (event_kind_of(es[i]), event_paths_of(es[i])),
        ),
{
}

/// The string tag of a change kind, as an owned string.
pub fn kind_label(k: &ChangeKind) -> (r: String)
    ensures
        r@ == kind_tag(*k),
{
    match k {
        ChangeKind::Any => "any".to_string(),
        ChangeKind::Access => "access".to_string(),
        ChangeKind::Create => "create".to_string(),
        ChangeKind::Modify => "modify".to_string(),
        ChangeKind::Rename => "rename".to_string(),
        ChangeKind::Remove => "remove".to_string(),
        ChangeKind::Other => "other".to_string(),
    }
}

/// Renders one change event into the intermediate serialized form.
#[verifier::loop_isolation(false)]
pub fn serialize_event(d: &EventData) -> (r: SerializedValue)
    ensures
        r.model() == event_tree(d.kind, d.paths_model()),
{
    let tag = kind_label(&d.kind);
    let mut items: Vec<SerializedValue> = Vec::new();
    let mut i: usize = 0;
    while i < d.paths.len()
        invariant
            i <= d.paths@.len(),
            items@.len() == i,
            forall|j: int| 0 <= j < i ==> items@[j] == SerializedValue::Text(d.paths@[j]),
        decreases d.paths@.len() - i,
    {
        items.push(SerializedValue::Text(d.paths[i].clone()));
        i = i + 1;
    }
    proof {
        lemma_ser_models(items@);
        assert(ser_models(items@) =~= d.paths_model().map_values(
            |p: Seq<char>| SerModel::Text(p),
        ));
    }
    let mut entries: Vec<(String, SerializedValue)> = Vec::new();
    entries.push(("kind".to_string(), SerializedValue::Text(tag)));
    entries.push(("paths".to_string(), SerializedValue::Arr(items)));
    let r = SerializedValue::Obj(entries);
    proof {
        lemma_ser_entry_models(entries@);
        assert(ser_entry_models(entries@) =~= seq![
            ("kind"@, SerModel::Text(kind_tag(d.kind))),
            (
                "paths"@,
                SerModel::Arr(d.paths_model().map_values(|p: Seq<char>| SerModel::Text(p))),
            ),
        ]);
    }
    r
}

/// Relies on notify::Event's public fields: `kind`, reduced to this system's
/// enumerated kinds one variant each (a name change stands apart as a
/// rename), and `paths`, rendered as strings. Both reductions read the event
/// alone, so the result is the named kind and paths of the event.
#[verifier::external_body]
pub(crate) fn extract_event(e: &notify::Event) -> (r: EventData)
    ensures
        r.kind == event_kind_of(*e),
        r.paths_model() == event_paths_of(*e),
{
    let kind = match e.kind {
        notify::EventKind::Any => ChangeKind::Any,
        notify::EventKind::Access(_) => ChangeKind::Access,
        notify::EventKind::Create(_) => ChangeKind::Create,
        notify::EventKind::Modify(notify::event::ModifyKind::Name(_)) => ChangeKind::Rename,
        notify::EventKind::Modify(_) => ChangeKind::Modify,
        notify::EventKind::Remove(_) => ChangeKind::Remove,
        notify::EventKind::Other => ChangeKind::Other,
    };
    let paths = e.paths.iter().map(|p| p.to_string_lossy().into_owned()).collect();
    EventData { kind, paths }
}

/// The dynamic value delivered for one platform change event: its kind and
/// paths, serialized and converted — a map with the kind tag and the path
/// list. A function of the event alone: equal events yield equal trees.
pub fn event_payload(e: &notify::Event) -> (r: DynamicValue)
    ensures
        r.model() == delivered_model((event_kind_of(*e), event_paths_of(*e))),
{
    let d = extract_event(e);
    let sv = serialize_event(&d);
    convert(&sv)
}

} // verus!
