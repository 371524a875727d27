//! The data model: the wire-side change schema (what arrives on the topic)
//! and the graph-side change representation (what is handed downstream), with
//! the verified conversion between them.

use vstd::prelude::*;
use crate::clock::now_millis;
use crate::json::{Json, JsonS};

verus! {

broadcast use
    vstd::std_specs::vec::group_vec_axioms,
    crate::json::lemma_json_deep_view_arr,
    crate::json::lemma_json_deep_view_obj;

/// Broker delivery guarantee, chosen at subscribe time.
#[derive(Debug, Clone, Copy, PartialEq, Eq, Structural)]
pub enum QualityOfService {
    AtMostOnce,
    AtLeastOnce,
    ExactlyOnce,
}

/// A change operation as it appears on the wire, after decoding. The
/// `timestamp` is milliseconds since the epoch; a missing timestamp is
/// resolved to the time of conversion.
#[derive(Debug, PartialEq)]
pub enum MQTTSourceChange {
    Insert { element: MQTTElement, timestamp: Option<u64> },
    Update { element: MQTTElement, timestamp: Option<u64> },
    Delete { id: String, labels: Option<Vec<String>>, timestamp: Option<u64> },
}

/// A wire-side element: a node or a relation, with its properties still in
/// JSON form.
#[derive(Debug, PartialEq)]
pub enum MQTTElement {
    Node { id: String, labels: Vec<String>, properties: Vec<(String, Json)> },
    Relation {
        id: String,
        labels: Vec<String>,
        from: String,
        to: String,
        properties: Vec<(String, Json)>,
    },
}

/// A typed property value in the graph model. `Float` carries the IEEE-754
/// bit pattern of the number, as the JSON parser produced it.
#[derive(Debug, PartialEq)]
pub enum ElementValue {
    Null,
    Bool(bool),
    Integer(i64),
    Float(u64),
    String(String),
    List(Vec<ElementValue>),
    Object(Vec<(String, ElementValue)>),
}

/// The addressing key of every node and relation: which adapter it came from,
/// and its identifier within that source.
#[derive(Debug, Clone, PartialEq)]
pub struct ElementReference {
    pub source_id: String,
    pub element_id: String,
}

/// What every element carries besides its properties.
#[derive(Debug, Clone, PartialEq)]
pub struct ElementMetadata {
    pub reference: ElementReference,
    pub labels: Vec<String>,
    pub effective_from: u64,
}

/// A graph element with converted, typed properties.
#[derive(Debug, PartialEq)]
pub enum Element {
    Node { metadata: ElementMetadata, properties: Vec<(String, ElementValue)> },
    Relation {
        metadata: ElementMetadata,
        properties: Vec<(String, ElementValue)>,
        in_node: ElementReference,
        out_node: ElementReference,
    },
}

/// A change against the downstream graph model.
#[derive(Debug, PartialEq)]
pub enum SourceChange {
    Insert { element: Element },
    Update { element: Element },
    Delete { metadata: ElementMetadata },
}

/// What the dispatcher hands to the downstream consumer: the converted change
/// tagged with its source and the emission time in milliseconds.
#[derive(Debug, PartialEq)]
pub struct SourceChangeEvent {
    pub source_id: String,
    pub change: SourceChange,
    pub timestamp: u64,
}

/// Mathematical shape of `MQTTSourceChange`.
pub ghost enum MQTTSourceChangeS {
    Insert { element: MQTTElementS, timestamp: Option<u64> },
    Update { element: MQTTElementS, timestamp: Option<u64> },
    Delete { id: Seq<char>, labels: Option<Seq<Seq<char>>>, timestamp: Option<u64> },
}

/// Mathematical shape of `MQTTElement`.
pub ghost enum MQTTElementS {
    Node { id: Seq<char>, labels: Seq<Seq<char>>, properties: Seq<(Seq<char>, JsonS)> },
    Relation {
        id: Seq<char>,
        labels: Seq<Seq<char>>,
        from: Seq<char>,
        to: Seq<char>,
        properties: Seq<(Seq<char>, JsonS)>,
    },
}

/// Mathematical shape of `ElementValue`.
pub ghost enum ElementValueS {
    Null,
    Bool(bool),
    Integer(i64),
    Float(u64),
    String(Seq<char>),
    List(Seq<ElementValueS>),
    Object(Seq<(Seq<char>, ElementValueS)>),
}

/// Mathematical shape of `ElementReference`.
pub ghost struct ElementReferenceS {
    pub source_id: Seq<char>,
    pub element_id: Seq<char>,
}

/// Mathematical shape of `ElementMetadata`.
pub ghost struct ElementMetadataS {
    pub reference: ElementReferenceS,
    pub labels: Seq<Seq<char>>,
    pub effective_from: u64,
}

/// Mathematical shape of `Element`.
pub ghost enum ElementS {
    Node { metadata: ElementMetadataS, properties: Seq<(Seq<char>, ElementValueS)> },
    Relation {
        metadata: ElementMetadataS,
        properties: Seq<(Seq<char>, ElementValueS)>,
        in_node: ElementReferenceS,
        out_node: ElementReferenceS,
    },
}

/// Mathematical shape of `SourceChange`.
pub ghost enum SourceChangeS {
    Insert { element: ElementS },
    Update { element: ElementS },
    Delete { metadata: ElementMetadataS },
}

/// Mathematical shape of `SourceChangeEvent`.
pub ghost struct SourceChangeEventS {
    pub source_id: Seq<char>,
    pub change: SourceChangeS,
    pub timestamp: u64,
}

impl DeepView for MQTTElement {
    type V = MQTTElementS;

    open spec fn deep_view(&self) -> MQTTElementS {
        match self {
            MQTTElement::Node { id, labels, properties } => MQTTElementS::Node {
                id: id@,
                labels: labels.deep_view(),
                properties: properties.deep_view(),
            },
            MQTTElement::Relation { id, labels, from, to, properties } => MQTTElementS::Relation {
                id: id@,
                labels: labels.deep_view(),
                from: from@,
                to: to@,
                properties: properties.deep_view(),
            },
        }
    }
}

impl DeepView for MQTTSourceChange {
    type V = MQTTSourceChangeS;

    open spec fn deep_view(&self) -> MQTTSourceChangeS {
        match self {
            MQTTSourceChange::Insert { element, timestamp } => MQTTSourceChangeS::Insert {
                element: element.deep_view(),
                timestamp: *timestamp,
            },
            MQTTSourceChange::Update { element, timestamp } => MQTTSourceChangeS::Update {
                element: element.deep_view(),
                timestamp: *timestamp,
            },
            MQTTSourceChange::Delete { id, labels, timestamp } => MQTTSourceChangeS::Delete {
                id: id@,
                labels: labels.deep_view(),
                timestamp: *timestamp,
            },
        }
    }
}

impl DeepView for ElementValue {
    type V = ElementValueS;

    open spec fn deep_view(&self) -> ElementValueS
        decreases self,
    {
        match self {
            ElementValue::Null => ElementValueS::Null,
            ElementValue::Bool(b) => ElementValueS::Bool(*b),
            ElementValue::Integer(i) => ElementValueS::Integer(*i),
            ElementValue::Float(bits) => ElementValueS::Float(*bits),
            ElementValue::String(s) => ElementValueS::String(s@),
            ElementValue::List(items) => ElementValueS::List(
                Seq::new(
                    items.len() as nat,
                    |i: int|
                        if 0 <= i < items.len() {
                            items[i].deep_view()
                        } else {
                            ElementValueS::Null
                        },
                ),
            ),
            ElementValue::Object(entries) => ElementValueS::Object(
                Seq::new(
                    entries.len() as nat,
                    |i: int|
                        if 0 <= i < entries.len() {
                            (entries[i].0@, entries[i].1.deep_view())
                        } else {
                            (Seq::empty(), ElementValueS::Null)
                        },
                ),
            ),
        }
    }
}

/// The shape of a list value is the shape of its items.
pub broadcast proof fn lemma_value_deep_view_list(v: ElementValue)
    requires
        v is List,
    ensures
        #[trigger] v.deep_view() == ElementValueS::List((v->List_0).deep_view()),
{
    reveal_with_fuel(<ElementValue as DeepView>::deep_view, 2);
    assert(v.deep_view()->List_0 =~= (v->List_0).deep_view());
}

/// The shape of an object value is the shape of its entries.
pub broadcast proof fn lemma_value_deep_view_object(v: ElementValue)
    requires
        v is Object,
    ensures
        #[trigger] v.deep_view() == ElementValueS::Object((v->Object_0).deep_view()),
{
    reveal_with_fuel(<ElementValue as DeepView>::deep_view, 2);
    assert(v.deep_view()->Object_0 =~= (v->Object_0).deep_view());
}

impl DeepView for ElementReference {
    type V = ElementReferenceS;

    open spec fn deep_view(&self) -> ElementReferenceS {
        ElementReferenceS { source_id: self.source_id@, element_id: self.element_id@ }
    }
}

impl DeepView for ElementMetadata {
    type V = ElementMetadataS;

    open spec fn deep_view(&self) -> ElementMetadataS {
        ElementMetadataS {
            reference: self.reference.deep_view(),
            labels: self.labels.deep_view(),
            effective_from: self.effective_from,
        }
    }
}

impl DeepView for Element {
    type V = ElementS;

    open spec fn deep_view(&self) -> ElementS {
        match self {
            Element::Node { metadata, properties } => ElementS::Node {
                metadata: metadata.deep_view(),
                properties: properties.deep_view(),
            },
            Element::Relation { metadata, properties, in_node, out_node } => ElementS::Relation {
                metadata: metadata.deep_view(),
                properties: properties.deep_view(),
                in_node: in_node.deep_view(),
                out_node: out_node.deep_view(),
            },
        }
    }
}

impl DeepView for SourceChange {
    type V = SourceChangeS;

    open spec fn deep_view(&self) -> SourceChangeS {
        match self {
            SourceChange::Insert { element } => SourceChangeS::Insert {
                element: element.deep_view(),
            },
            SourceChange::Update { element } => SourceChangeS::Update {
                element: element.deep_view(),
            },
            SourceChange::Delete { metadata } => SourceChangeS::Delete {
                metadata: metadata.deep_view(),
            },
        }
    }
}

impl DeepView for SourceChangeEvent {
    type V = SourceChangeEventS;

    open spec fn deep_view(&self) -> SourceChangeEventS {
        SourceChangeEventS {
            source_id: self.source_id@,
            change: self.change.deep_view(),
            timestamp: self.timestamp,
        }
    }
}

/// Conversion's defensive error: a wire number representable neither as a
/// signed integer nor as a float. The JSON layer of this crate classifies
/// every number before conversion runs, so conversion never actually returns
/// it; the contracts below say so.
#[derive(Debug, Clone, Copy, PartialEq, Eq, Structural)]
pub enum ConversionError {
    UnsupportedNumber,
}

/// What converting a JSON value to a typed value comes to: shape-preserving,
/// with every JSON variant mapped to its typed counterpart.
pub open spec fn value_spec(j: JsonS) -> ElementValueS
    decreases j,
{
    match j {
        JsonS::Null => ElementValueS::Null,
        JsonS::Bool(b) => ElementValueS::Bool(b),
        JsonS::Int(i) => ElementValueS::Integer(i),
        JsonS::Float(bits) => ElementValueS::Float(bits),
        JsonS::Str(s) => ElementValueS::String(s),
        JsonS::Arr(items) => ElementValueS::List(
            Seq::new(
                items.len(),
                |i: int|
                    if 0 <= i < items.len() {
                        value_spec(items[i])
                    } else {
                        ElementValueS::Null
                    },
            ),
        ),
        JsonS::Obj(entries) => ElementValueS::Object(
            Seq::new(
                entries.len(),
                |i: int|
                    if 0 <= i < entries.len() {
                        (entries[i].0, value_spec(entries[i].1))
                    } else {
                        (Seq::empty(), ElementValueS::Null)
                    },
            ),
        ),
    }
}

/// A JSON array converts item by item.
pub broadcast proof fn lemma_value_spec_arr(j: JsonS)
    requires
        j is Arr,
    ensures
        (#[trigger] value_spec(j)) is List,
        value_spec(j)->List_0.len() == j->Arr_0.len(),
        forall|i: int|
            0 <= i < j->Arr_0.len() ==> value_spec(j)->List_0[i] == value_spec(j->Arr_0[i]),
{
    reveal_with_fuel(value_spec, 2);
}

/// A JSON object converts entry by entry, keys unchanged.
pub broadcast proof fn lemma_value_spec_obj(j: JsonS)
    requires
        j is Obj,
    ensures
        (#[trigger] value_spec(j)) is Object,
        value_spec(j)->Object_0.len() == j->Obj_0.len(),
        forall|i: int|
            0 <= i < j->Obj_0.len() ==> value_spec(j)->Object_0[i] == (
            j->Obj_0[i].0,
            value_spec(j->Obj_0[i].1),
            ),
{
    reveal_with_fuel(value_spec, 2);
}

/// An element's property map converts entry by entry.
pub open spec fn props_spec(entries: Seq<(Seq<char>, JsonS)>) -> Seq<(Seq<char>, ElementValueS)> {
    Seq::new(
        entries.len(),
        |i: int|
            if 0 <= i < entries.len() {
                (entries[i].0, value_spec(entries[i].1))
            } else {
                (Seq::empty(), ElementValueS::Null)
            },
    )
}

/// Element metadata built from the adapter's source id, the wire element's
/// id and labels, and the resolved timestamp.
pub open spec fn metadata_spec(
    source_id: Seq<char>,
    element_id: Seq<char>,
    labels: Seq<Seq<char>>,
    effective_from: u64,
) -> ElementMetadataS {
    ElementMetadataS {
        reference: ElementReferenceS { source_id: source_id, element_id: element_id },
        labels: labels,
        effective_from: effective_from,
    }
}

/// A wire element converts to a graph element: metadata from id and labels,
/// properties converted value by value; a relation's `to` becomes its
/// incoming reference and `from` its outgoing one.
pub open spec fn element_spec(e: MQTTElementS, source_id: Seq<char>, timestamp: u64) -> ElementS {
    match e {
        MQTTElementS::Node { id, labels, properties } => ElementS::Node {
            metadata: metadata_spec(source_id, id, labels, timestamp),
            properties: props_spec(properties),
        },
        MQTTElementS::Relation { id, labels, from, to, properties } => ElementS::Relation {
            metadata: metadata_spec(source_id, id, labels, timestamp),
            properties: props_spec(properties),
            in_node: ElementReferenceS { source_id: source_id, element_id: to },
            out_node: ElementReferenceS { source_id: source_id, element_id: from },
        },
    }
}

/// An explicit wire timestamp wins; a missing one resolves to the clock
/// reading taken at conversion time.
pub open spec fn effective_ts(ts: Option<u64>, now: u64) -> u64 {
    match ts {
        Option::Some(t) => t,
        Option::None => now,
    }
}

/// A delete with no labels member gets the empty label set.
pub open spec fn labels_or_empty(l: Option<Seq<Seq<char>>>) -> Seq<Seq<char>> {
    match l {
        Option::Some(ls) => ls,
        Option::None => Seq::empty(),
    }
}

/// What converting a decoded change comes to, given the clock reading `now`
/// used for any missing timestamp.
pub open spec fn convert_spec(c: MQTTSourceChangeS, source_id: Seq<char>, now: u64) -> SourceChangeS {
    match c {
        MQTTSourceChangeS::Insert { element, timestamp } => SourceChangeS::Insert {
            element: element_spec(element, source_id, effective_ts(timestamp, now)),
        },
        MQTTSourceChangeS::Update { element, timestamp } => SourceChangeS::Update {
            element: element_spec(element, source_id, effective_ts(timestamp, now)),
        },
        MQTTSourceChangeS::Delete { id, labels, timestamp } => SourceChangeS::Delete {
            metadata: metadata_spec(
                source_id,
                id,
                labels_or_empty(labels),
                effective_ts(timestamp, now),
            ),
        },
    }
}

/// The wire timestamp a change carries, if any.
pub open spec fn change_ts(c: MQTTSourceChangeS) -> Option<u64> {
    match c {
        MQTTSourceChangeS::Insert { timestamp, .. } => timestamp,
        MQTTSourceChangeS::Update { timestamp, .. } => timestamp,
        MQTTSourceChangeS::Delete { timestamp, .. } => timestamp,
    }
}

/// The effective-from instant a converted change carries.
pub open spec fn change_effective_from(s: SourceChangeS) -> u64 {
    match s {
        SourceChangeS::Insert { element } => match element {
            ElementS::Node { metadata, .. } => metadata.effective_from,
            ElementS::Relation { metadata, .. } => metadata.effective_from,
        },
        SourceChangeS::Update { element } => match element {
            ElementS::Node { metadata, .. } => metadata.effective_from,
            ElementS::Relation { metadata, .. } => metadata.effective_from,
        },
        SourceChangeS::Delete { metadata } => metadata.effective_from,
    }
}

/// Timestamp resolution law: conversion stamps the change with its explicit
/// wire timestamp where one is present — whatever the clock says — and with
/// the clock reading where none is.
pub proof fn lemma_timestamp_resolution(c: MQTTSourceChangeS, source_id: Seq<char>, now: u64)
    ensures
        change_effective_from(convert_spec(c, source_id, now)) == effective_ts(change_ts(c), now),
{
}

/// Deleting without a labels member yields the empty label set, not an
/// error.
pub proof fn lemma_delete_without_labels(
    id: Seq<char>,
    ts: Option<u64>,
    source_id: Seq<char>,
    now: u64,
)
    ensures
        convert_spec(
            MQTTSourceChangeS::Delete { id: id, labels: Option::None, timestamp: ts },
            source_id,
            now,
        ) matches SourceChangeS::Delete { metadata } && metadata.labels
            == Seq::<Seq<char>>::empty(),
{
}

/// A copy of a label vector with the same mathematical shape.
fn clone_labels(labels: &Vec<String>) -> (r: Vec<String>)
    ensures
        r.deep_view() == labels.deep_view(),
{
    let mut out: Vec<String> = Vec::new();
    let mut i: usize = 0;
    while i < labels.len()
        invariant
            i <= labels.len(),
            out.len() == i,
            forall|k: int| 0 <= k < i ==> out[k]@ == labels[k]@,
        decreases labels.len() - i,
    {
        out.push(labels[i].clone());
        i += 1;
    }
    proof {
        assert(out.deep_view() =~= labels.deep_view());
    }
    out
}

/// Every JSON property value to its typed counterpart, exactly as
/// `value_spec` says; total, since this crate's JSON trees carry numbers
/// already classified.
#[verifier::loop_isolation(false)]
pub fn convert_json_to_element_value(value: &Json) -> (r: Result<ElementValue, ConversionError>)
    ensures
        r matches Ok(v) && v.deep_view() == value_spec(value.deep_view()),
    decreases value,
{
    match value {
        Json::Null => Ok(ElementValue::Null),
        Json::Bool(b) => Ok(ElementValue::Bool(*b)),
        Json::Int(i) => Ok(ElementValue::Integer(*i)),
        Json::Float(bits) => Ok(ElementValue::Float(*bits)),
        Json::Str(s) => Ok(ElementValue::String(s.clone())),
        Json::Arr(items) => {
            let mut out: Vec<ElementValue> = Vec::new();
            let mut i: usize = 0;
            while i < items.len()
                invariant
                    i <= items.len(),
                    out.len() == i,
                    forall|k: int|
                        0 <= k < i ==> out[k].deep_view() == value_spec(items[k].deep_view()),
                decreases items.len() - i,
            {
                match convert_json_to_element_value(&items[i]) {
                    Ok(v) => out.push(v),
                    Err(e) => {
                        return Err(e);
                    },
                }
                i += 1;
            }
            proof {
                broadcast use lemma_value_spec_arr, lemma_value_deep_view_list;

                assert(value_spec(value.deep_view())->List_0 =~= out.deep_view());
            }
            Ok(ElementValue::List(out))
        },
        Json::Obj(entries) => {
            let mut out: Vec<(String, ElementValue)> = Vec::new();
            let mut i: usize = 0;
            while i < entries.len()
                invariant
                    i <= entries.len(),
                    out.len() == i,
                    forall|k: int|
                        0 <= k < i ==> out[k].0@ == entries[k].0@ && out[k].1.deep_view()
                            == value_spec(entries[k].1.deep_view()),
                decreases entries.len() - i,
            {
                let e = &entries[i];
                match convert_json_to_element_value(&e.1) {
                    Ok(v) => out.push((e.0.clone(), v)),
                    Err(er) => {
                        return Err(er);
                    },
                }
                i += 1;
            }
            proof {
                broadcast use lemma_value_spec_obj, lemma_value_deep_view_object;

                assert(value_spec(value.deep_view())->Object_0 =~= out.deep_view());
            }
            Ok(ElementValue::Object(out))
        },
    }
}

/// A wire property map to typed properties, entry by entry.
fn convert_props(entries: &Vec<(String, Json)>) -> (r: Result<
    Vec<(String, ElementValue)>,
    ConversionError,
>)
    ensures
        r matches Ok(ps) && ps.deep_view() == props_spec(entries.deep_view()),
{
    let mut out: Vec<(String, ElementValue)> = Vec::new();
    let mut i: usize = 0;
    while i < entries.len()
        invariant
            i <= entries.len(),
            out.len() == i,
            forall|k: int|
                0 <= k < i ==> out[k].0@ == entries[k].0@ && out[k].1.deep_view() == value_spec(
                    entries[k].1.deep_view(),
                ),
        decreases entries.len() - i,
    {
        let e = &entries[i];
        match convert_json_to_element_value(&e.1) {
            Ok(v) => out.push((e.0.clone(), v)),
            Err(er) => {
                return Err(er);
            },
        }
        i += 1;
    }
    proof {
        assert(out.deep_view() =~= props_spec(entries.deep_view()));
    }
    Ok(out)
}

/// A wire element to a graph element, exactly as `element_spec` says.
pub fn create_element_from_mqtt(
    mqtt_element: &MQTTElement,
    source_id: &str,
    timestamp: u64,
) -> (r: Result<Element, ConversionError>)
    ensures
        r matches Ok(el) && el.deep_view() == element_spec(
            mqtt_element.deep_view(),
            source_id@,
            timestamp,
        ),
{
    match mqtt_element {
        MQTTElement::Node { id, labels, properties } => {
            let metadata = ElementMetadata {
                reference: ElementReference {
                    source_id: source_id.to_owned(),
                    element_id: id.clone(),
                },
                labels: clone_labels(labels),
                effective_from: timestamp,
            };
            let props = match convert_props(properties) {
                Ok(p) => p,
                Err(e) => {
                    return Err(e);
                },
            };
            Ok(Element::Node { metadata, properties: props })
        },
        MQTTElement::Relation { id, labels, from, to, properties } => {
            let metadata = ElementMetadata {
                reference: ElementReference {
                    source_id: source_id.to_owned(),
                    element_id: id.clone(),
                },
                labels: clone_labels(labels),
                effective_from: timestamp,
            };
            let props = match convert_props(properties) {
                Ok(p) => p,
                Err(e) => {
                    return Err(e);
                },
            };
            Ok(Element::Relation {
                metadata,
                properties: props,
                in_node: ElementReference {
                    source_id: source_id.to_owned(),
                    element_id: to.clone(),
                },
                out_node: ElementReference {
                    source_id: source_id.to_owned(),
                    element_id: from.clone(),
                },
            })
        },
    }
}

/// A decoded change to a graph change, with `now_ms` standing in for any
/// missing timestamp; deterministic, and exactly what `convert_spec` says.
pub fn convert_mqtt_to_source_change_at(
    mqtt_change: &MQTTSourceChange,
    source_id: &str,
    now_ms: u64,
) -> (r: Result<SourceChange, ConversionError>)
    ensures
        r matches Ok(sc) && sc.deep_view() == convert_spec(
            mqtt_change.deep_view(),
            source_id@,
            now_ms,
        ),
{
    match mqtt_change {
        MQTTSourceChange::Insert { element, timestamp } => {
            let ts = match timestamp {
                Some(t) => *t,
                None => now_ms,
            };
            match create_element_from_mqtt(element, source_id, ts) {
                Ok(el) => Ok(SourceChange::Insert { element: el }),
                Err(e) => Err(e),
            }
        },
        MQTTSourceChange::Update { element, timestamp } => {
            let ts = match timestamp {
                Some(t) => *t,
                None => now_ms,
            };
            match create_element_from_mqtt(element, source_id, ts) {
                Ok(el) => Ok(SourceChange::Update { element: el }),
                Err(e) => Err(e),
            }
        },
        MQTTSourceChange::Delete { id, labels, timestamp } => {
            let lbls: Vec<String> = match labels {
                Some(l) => clone_labels(l),
                None => {
                    let v: Vec<String> = Vec::new();
                    proof {
                        assert(v.deep_view() =~= Seq::<Seq<char>>::empty());
                    }
                    v
                },
            };
            let metadata = ElementMetadata {
                reference: ElementReference {
                    source_id: source_id.to_owned(),
                    element_id: id.clone(),
                },
                labels: lbls,
                effective_from: match timestamp {
                    Some(t) => *t,
                    None => now_ms,
                },
            };
            Ok(SourceChange::Delete { metadata })
        },
    }
}

/// A decoded change to a graph change, resolving any missing timestamp from
/// the wall clock: the result is `convert_spec` for the clock reading taken
/// during the call.
pub fn convert_mqtt_to_source_change(mqtt_change: &MQTTSourceChange, source_id: &str) -> (r:
    Result<SourceChange, ConversionError>)
    ensures
        r is Ok,
        exists|now: u64|
            r->Ok_0.deep_view() == convert_spec(mqtt_change.deep_view(), source_id@, now),
{
    let now = now_millis();
    let r = convert_mqtt_to_source_change_at(mqtt_change, source_id, now);
    proof {
        assert(r->Ok_0.deep_view() == convert_spec(mqtt_change.deep_view(), source_id@, now));
    }
    r
}

} // verus!
