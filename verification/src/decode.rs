//! The wire decoder: from JSON text to a typed change operation. The schema
//! is a tagged object — an `operation` member selects insert, update or
//! delete; insert and update carry an `element` object, delete carries a bare
//! id with optional labels; a `timestamp` member is optional throughout.

use vstd::prelude::*;
use crate::json::{json_parse, parse_json_text, Json, JsonS};
use crate::model::{change_ts, MQTTElement, MQTTElementS, MQTTSourceChange, MQTTSourceChangeS};

verus! {

broadcast use
    vstd::std_specs::vec::group_vec_axioms,
    crate::json::lemma_json_deep_view_arr,
    crate::json::lemma_json_deep_view_obj;

/// Why a payload was rejected, roughly in the order the checks run: the text
/// must be a JSON object, its `operation` member must be one of the three
/// known tags, the members the tag requires must be present, and every
/// present member must have the right shape.
#[derive(Debug, Clone, Copy, PartialEq, Eq, Structural)]
pub enum DecodeError {
    Malformed,
    NotAnObject,
    MissingOperation,
    UnknownOperation,
    MissingElement,
    BadElement,
    MissingId,
    BadField,
}

/// First-occurrence lookup among an object's members.
pub open spec fn obj_get(entries: Seq<(Seq<char>, JsonS)>, key: Seq<char>) -> Option<JsonS>
    decreases entries.len(),
{
    if entries.len() == 0 {
        Option::None
    } else if entries[0].0 == key {
        Option::Some(entries[0].1)
    } else {
        obj_get(entries.drop_first(), key)
    }
}

/// Every item of the sequence is a JSON string.
pub open spec fn all_strings(items: Seq<JsonS>) -> bool {
    forall|i: int| 0 <= i < items.len() ==> items[i] is Str
}

/// The characters of each item, item by item.
pub open spec fn string_seq(items: Seq<JsonS>) -> Seq<Seq<char>> {
    Seq::new(items.len(), |i: int| items[i]->Str_0)
}

/// A labels value must be an array of strings.
pub open spec fn spec_labels(j: JsonS) -> Option<Seq<Seq<char>>> {
    match j {
        JsonS::Arr(items) => if all_strings(items) {
            Option::Some(string_seq(items))
        } else {
            Option::None
        },
        _ => Option::None,
    }
}

/// A timestamp member, when present, must be a non-negative integer.
pub open spec fn spec_ts_value(t: Option<JsonS>) -> Result<Option<u64>, DecodeError> {
    match t {
        Option::None => Result::Ok(Option::None),
        Option::Some(JsonS::Int(i)) => if i >= 0 {
            Result::Ok(Option::Some(i as u64))
        } else {
            Result::Err(DecodeError::BadField)
        },
        Option::Some(_) => Result::Err(DecodeError::BadField),
    }
}

/// A properties member is optional; absent means no properties, present
/// means it must be an object.
pub open spec fn spec_props_field(entries: Seq<(Seq<char>, JsonS)>) -> Option<
    Seq<(Seq<char>, JsonS)>,
> {
    match obj_get(entries, "properties"@) {
        Option::None => Option::Some(Seq::empty()),
        Option::Some(JsonS::Obj(es)) => Option::Some(es),
        Option::Some(_) => Option::None,
    }
}

/// An element's labels member is required and must be an array of strings.
pub open spec fn spec_labels_field(entries: Seq<(Seq<char>, JsonS)>) -> Option<Seq<Seq<char>>> {
    match obj_get(entries, "labels"@) {
        Option::None => Option::None,
        Option::Some(l) => spec_labels(l),
    }
}

/// A node needs `id`, `labels` and (optionally) `properties`.
pub open spec fn spec_node(entries: Seq<(Seq<char>, JsonS)>) -> Option<MQTTElementS> {
    match (obj_get(entries, "id"@), spec_labels_field(entries), spec_props_field(entries)) {
        (Option::Some(JsonS::Str(id)), Option::Some(ls), Option::Some(ps)) => Option::Some(
            MQTTElementS::Node { id: id, labels: ls, properties: ps },
        ),
        _ => Option::None,
    }
}

/// A relation additionally needs string members `from` and `to`.
pub open spec fn spec_relation(entries: Seq<(Seq<char>, JsonS)>) -> Option<MQTTElementS> {
    match (
        obj_get(entries, "id"@),
        spec_labels_field(entries),
        spec_props_field(entries),
        obj_get(entries, "from"@),
        obj_get(entries, "to"@),
    ) {
        (
            Option::Some(JsonS::Str(id)),
            Option::Some(ls),
            Option::Some(ps),
            Option::Some(JsonS::Str(from)),
            Option::Some(JsonS::Str(to)),
        ) => Option::Some(
            MQTTElementS::Relation { id: id, labels: ls, from: from, to: to, properties: ps },
        ),
        _ => Option::None,
    }
}

/// An element is an object whose `type` member selects node or relation.
pub open spec fn spec_element(j: JsonS) -> Option<MQTTElementS> {
    match j {
        JsonS::Obj(entries) => match obj_get(entries, "type"@) {
            Option::Some(JsonS::Str(t)) => if t == "node"@ {
                spec_node(entries)
            } else if t == "relation"@ {
                spec_relation(entries)
            } else {
                Option::None
            },
            _ => Option::None,
        },
        _ => Option::None,
    }
}

/// A delete's labels member is optional; present means an array of strings.
pub open spec fn spec_delete_labels(entries: Seq<(Seq<char>, JsonS)>) -> Result<
    Option<Seq<Seq<char>>>,
    DecodeError,
> {
    match obj_get(entries, "labels"@) {
        Option::None => Result::Ok(Option::None),
        Option::Some(l) => match spec_labels(l) {
            Option::Some(ls) => Result::Ok(Option::Some(ls)),
            Option::None => Result::Err(DecodeError::BadField),
        },
    }
}

/// What decoding a parsed document comes to. Members beyond the schema are
/// ignored, as the wire format allows them.
pub open spec fn decode_spec(m: JsonS) -> Result<MQTTSourceChangeS, DecodeError> {
    match m {
        JsonS::Obj(entries) => match obj_get(entries, "operation"@) {
            Option::None => Result::Err(DecodeError::MissingOperation),
            Option::Some(JsonS::Str(tag)) => if tag == "insert"@ || tag == "update"@ {
                match obj_get(entries, "element"@) {
                    Option::None => Result::Err(DecodeError::MissingElement),
                    Option::Some(e) => match spec_element(e) {
                        Option::None => Result::Err(DecodeError::BadElement),
                        Option::Some(el) => match spec_ts_value(obj_get(entries, "timestamp"@)) {
                            Result::Err(er) => Result::Err(er),
                            Result::Ok(ts) => Result::Ok(
                                if tag == "insert"@ {
                                    MQTTSourceChangeS::Insert { element: el, timestamp: ts }
                                } else {
                                    MQTTSourceChangeS::Update { element: el, timestamp: ts }
                                },
                            ),
                        },
                    },
                }
            } else if tag == "delete"@ {
                match obj_get(entries, "id"@) {
                    Option::None => Result::Err(DecodeError::MissingId),
                    Option::Some(JsonS::Str(id)) => match spec_delete_labels(entries) {
                        Result::Err(er) => Result::Err(er),
                        Result::Ok(ls) => match spec_ts_value(obj_get(entries, "timestamp"@)) {
                            Result::Err(er) => Result::Err(er),
                            Result::Ok(ts) => Result::Ok(
                                MQTTSourceChangeS::Delete { id: id, labels: ls, timestamp: ts },
                            ),
                        },
                    },
                    Option::Some(_) => Result::Err(DecodeError::BadField),
                }
            } else {
                Result::Err(DecodeError::UnknownOperation)
            },
            Option::Some(_) => Result::Err(DecodeError::UnknownOperation),
        },
        _ => Result::Err(DecodeError::NotAnObject),
    }
}

/// The decoded operation's mathematical shape, error unchanged.
pub open spec fn decode_view(r: Result<MQTTSourceChange, DecodeError>) -> Result<
    MQTTSourceChangeS,
    DecodeError,
> {
    match r {
        Result::Ok(c) => Result::Ok(c.deep_view()),
        Result::Err(e) => Result::Err(e),
    }
}

/// Whether two text slices hold the same characters.
fn str_eq(a: &str, b: &str) -> (r: bool)
    ensures
        r == (a@ == b@),
{
    let sa = a.to_owned();
    let sb = b.to_owned();
    sa == sb
}

/// First-occurrence lookup among an object's members, following `obj_get`.
fn obj_lookup<'a>(entries: &'a Vec<(String, Json)>, key: &str) -> (r: Option<&'a Json>)
    ensures
        match r {
            Option::Some(v) => obj_get(entries.deep_view(), key@) == Option::Some(v.deep_view()),
            Option::None => obj_get(entries.deep_view(), key@) is None,
        },
{
    let ghost dv = entries.deep_view();
    proof {
        assert(dv.skip(0) =~= dv);
    }
    let mut i: usize = 0;
    while i < entries.len()
        invariant
            i <= entries.len(),
            dv == entries.deep_view(),
            dv.len() == entries.len(),
            obj_get(dv, key@) == obj_get(dv.skip(i as int), key@),
        decreases entries.len() - i,
    {
        let e = &entries[i];
        proof {
            assert(dv.skip(i as int).len() > 0);
            assert(dv.skip(i as int)[0] == dv[i as int]);
            assert(dv[i as int].0 == e.0@);
        }
        if str_eq(e.0.as_str(), key) {
            return Some(&e.1);
        }
        proof {
            assert(dv.skip(i as int).drop_first() =~= dv.skip(i as int + 1));
        }
        i += 1;
    }
    proof {
        assert(dv.skip(i as int).len() == 0);
    }
    None
}

/// A copy of an object's members with the same mathematical shape.
#[verifier::loop_isolation(false)]
fn clone_entries(entries: &Vec<(String, Json)>) -> (r: Vec<(String, Json)>)
    ensures
        r.deep_view() == entries.deep_view(),
{
    let mut out: Vec<(String, Json)> = Vec::new();
    let mut i: usize = 0;
    while i < entries.len()
        invariant
            i <= entries.len(),
            out.len() == i,
            forall|k: int|
                0 <= k < i ==> out[k].0@ == entries[k].0@ && out[k].1.deep_view()
                    == entries[k].1.deep_view(),
        decreases entries.len() - i,
    {
        let e = &entries[i];
        out.push((e.0.clone(), e.1.clone()));
        i += 1;
    }
    proof {
        assert(out.deep_view() =~= entries.deep_view());
    }
    out
}

/// A labels value into owned strings, exactly where `spec_labels` accepts.
#[verifier::loop_isolation(false)]
fn decode_labels(j: &Json) -> (r: Option<Vec<String>>)
    ensures
        match spec_labels(j.deep_view()) {
            Option::Some(ls) => r matches Option::Some(v) && v.deep_view() == ls,
            Option::None => r is None,
        },
{
    let items = match j {
        Json::Arr(items) => items,
        _ => {
            return None;
        },
    };
    let ghost dv = j.deep_view()->Arr_0;
    let mut out: Vec<String> = Vec::new();
    let mut i: usize = 0;
    while i < items.len()
        invariant
            i <= items.len(),
            out.len() == i,
            forall|k: int| 0 <= k < i ==> dv[k] is Str && out[k]@ == dv[k]->Str_0,
        decreases items.len() - i,
    {
        match &items[i] {
            Json::Str(s) => {
                out.push(s.clone());
            },
            _ => {
                proof {
                    assert(!(dv[i as int] is Str));
                }
                return None;
            },
        }
        i += 1;
    }
    proof {
        assert(all_strings(dv));
        assert(string_seq(dv) =~= out.deep_view());
    }
    Some(out)
}

/// A timestamp member's value, exactly as `spec_ts_value` reads it.
fn decode_ts(t: Option<&Json>) -> (r: Result<Option<u64>, DecodeError>)
    ensures
        r == spec_ts_value(t.deep_view()),
{
    match t {
        None => Ok(None),
        Some(Json::Int(i)) => {
            if *i >= 0 {
                Ok(Some(*i as u64))
            } else {
                Err(DecodeError::BadField)
            }
        },
        Some(_) => Err(DecodeError::BadField),
    }
}

/// An element object into the wire model, exactly where `spec_element`
/// accepts.
pub fn decode_element(j: &Json) -> (r: Option<MQTTElement>)
    ensures
        match spec_element(j.deep_view()) {
            Option::Some(es) => r matches Option::Some(e) && e.deep_view() == es,
            Option::None => r is None,
        },
{
    let entries = match j {
        Json::Obj(e) => e,
        _ => {
            return None;
        },
    };
    let t = match obj_lookup(entries, "type") {
        Some(Json::Str(t)) => t,
        _ => {
            return None;
        },
    };
    let id = match obj_lookup(entries, "id") {
        Some(Json::Str(s)) => s.clone(),
        _ => {
            return None;
        },
    };
    let labels = match obj_lookup(entries, "labels") {
        Some(l) => match decode_labels(l) {
            Some(v) => v,
            None => {
                return None;
            },
        },
        None => {
            return None;
        },
    };
    let properties = match obj_lookup(entries, "properties") {
        None => {
            let v: Vec<(String, Json)> = Vec::new();
            proof {
                assert(v.deep_view() =~= Seq::<(Seq<char>, JsonS)>::empty());
            }
            v
        },
        Some(Json::Obj(es)) => clone_entries(es),
        Some(_) => {
            return None;
        },
    };
    if str_eq(t.as_str(), "node") {
        Some(MQTTElement::Node { id, labels, properties })
    } else if str_eq(t.as_str(), "relation") {
        let from = match obj_lookup(entries, "from") {
            Some(Json::Str(s)) => s.clone(),
            _ => {
                return None;
            },
        };
        let to = match obj_lookup(entries, "to") {
            Some(Json::Str(s)) => s.clone(),
            _ => {
                return None;
            },
        };
        Some(MQTTElement::Relation { id, labels, from, to, properties })
    } else {
        None
    }
}

/// A parsed document into a change operation, exactly as `decode_spec` reads
/// it.
pub fn decode_change(j: &Json) -> (r: Result<MQTTSourceChange, DecodeError>)
    ensures
        decode_view(r) == decode_spec(j.deep_view()),
{
    let entries = match j {
        Json::Obj(e) => e,
        _ => {
            return Err(DecodeError::NotAnObject);
        },
    };
    let tag = match obj_lookup(entries, "operation") {
        None => {
            return Err(DecodeError::MissingOperation);
        },
        Some(Json::Str(t)) => t,
        Some(_) => {
            return Err(DecodeError::UnknownOperation);
        },
    };
    let is_insert = str_eq(tag.as_str(), "insert");
    let is_update = str_eq(tag.as_str(), "update");
    if is_insert || is_update {
        let element = match obj_lookup(entries, "element") {
            None => {
                return Err(DecodeError::MissingElement);
            },
            Some(e) => match decode_element(e) {
                None => {
                    return Err(DecodeError::BadElement);
                },
                Some(el) => el,
            },
        };
        let timestamp = match decode_ts(obj_lookup(entries, "timestamp")) {
            Err(er) => {
                return Err(er);
            },
            Ok(ts) => ts,
        };
        if is_insert {
            Ok(MQTTSourceChange::Insert { element, timestamp })
        } else {
            Ok(MQTTSourceChange::Update { element, timestamp })
        }
    } else if str_eq(tag.as_str(), "delete") {
        let id = match obj_lookup(entries, "id") {
            None => {
                return Err(DecodeError::MissingId);
            },
            Some(Json::Str(s)) => s.clone(),
            Some(_) => {
                return Err(DecodeError::BadField);
            },
        };
        let labels = match obj_lookup(entries, "labels") {
            None => None,
            Some(l) => match decode_labels(l) {
                Some(v) => Some(v),
                None => {
                    return Err(DecodeError::BadField);
                },
            },
        };
        let timestamp = match decode_ts(obj_lookup(entries, "timestamp")) {
            Err(er) => {
                return Err(er);
            },
            Ok(ts) => ts,
        };
        Ok(MQTTSourceChange::Delete { id, labels, timestamp })
    } else {
        Err(DecodeError::UnknownOperation)
    }
}

/// The wire decoder: text to change operation. A text that is not a JSON
/// document is `Malformed`; a document is decoded as `decode_spec` says.
pub fn map_json_to_mqtt_source_change(json_str: &str) -> (r: Result<
    MQTTSourceChange,
    DecodeError,
>)
    ensures
        match json_parse(json_str@) {
            Option::None => r is Err && r->Err_0 == DecodeError::Malformed,
            Option::Some(m) => decode_view(r) == decode_spec(m),
        },
{
    match parse_json_text(json_str) {
        None => Err(DecodeError::Malformed),
        Some(j) => decode_change(&j),
    }
}

/// Labels encode as an array of strings.
pub open spec fn encode_labels_spec(labels: Seq<Seq<char>>) -> JsonS {
    JsonS::Arr(
        Seq::new(
            labels.len(),
            |i: int|
                if 0 <= i < labels.len() {
                    JsonS::Str(labels[i])
                } else {
                    JsonS::Null
                },
        ),
    )
}

/// An element encodes as an object tagged by `type`, with its properties
/// carried verbatim.
pub open spec fn encode_element_spec(e: MQTTElementS) -> JsonS {
    match e {
        MQTTElementS::Node { id, labels, properties } => JsonS::Obj(
            seq![
                ("type"@, JsonS::Str("node"@)),
                ("id"@, JsonS::Str(id)),
                ("labels"@, encode_labels_spec(labels)),
                ("properties"@, JsonS::Obj(properties)),
            ],
        ),
        MQTTElementS::Relation { id, labels, from, to, properties } => JsonS::Obj(
            seq![
                ("type"@, JsonS::Str("relation"@)),
                ("id"@, JsonS::Str(id)),
                ("labels"@, encode_labels_spec(labels)),
                ("from"@, JsonS::Str(from)),
                ("to"@, JsonS::Str(to)),
                ("properties"@, JsonS::Obj(properties)),
            ],
        ),
    }
}

/// A present timestamp becomes a trailing integer member; an absent one is
/// simply not written.
pub open spec fn with_ts_spec(entries: Seq<(Seq<char>, JsonS)>, ts: Option<u64>) -> Seq<
    (Seq<char>, JsonS),
> {
    match ts {
        Option::Some(t) => entries.push(("timestamp"@, JsonS::Int(t as i64))),
        Option::None => entries,
    }
}

/// A change operation encodes as the tagged wire object that `decode_spec`
/// reads back.
pub open spec fn encode_spec(c: MQTTSourceChangeS) -> JsonS {
    match c {
        MQTTSourceChangeS::Insert { element, timestamp } => JsonS::Obj(
            with_ts_spec(
                seq![
                    ("operation"@, JsonS::Str("insert"@)),
                    ("element"@, encode_element_spec(element)),
                ],
                timestamp,
            ),
        ),
        MQTTSourceChangeS::Update { element, timestamp } => JsonS::Obj(
            with_ts_spec(
                seq![
                    ("operation"@, JsonS::Str("update"@)),
                    ("element"@, encode_element_spec(element)),
                ],
                timestamp,
            ),
        ),
        MQTTSourceChangeS::Delete { id, labels, timestamp } => JsonS::Obj(
            with_ts_spec(
                match labels {
                    Option::Some(ls) => seq![
                        ("operation"@, JsonS::Str("delete"@)),
                        ("id"@, JsonS::Str(id)),
                        ("labels"@, encode_labels_spec(ls)),
                    ],
                    Option::None => seq![
                        ("operation"@, JsonS::Str("delete"@)),
                        ("id"@, JsonS::Str(id)),
                    ],
                },
                timestamp,
            ),
        ),
    }
}

/// Labels into their wire encoding.
#[verifier::loop_isolation(false)]
fn encode_labels(labels: &Vec<String>) -> (r: Json)
    ensures
        r.deep_view() == encode_labels_spec(labels.deep_view()),
{
    let mut out: Vec<Json> = Vec::new();
    let mut i: usize = 0;
    while i < labels.len()
        invariant
            i <= labels.len(),
            out.len() == i,
            forall|k: int| 0 <= k < i ==> out[k].deep_view() == JsonS::Str(labels[k]@),
        decreases labels.len() - i,
    {
        out.push(Json::Str(labels[i].clone()));
        i += 1;
    }
    proof {
        assert(out.deep_view() =~= encode_labels_spec(labels.deep_view())->Arr_0);
    }
    Json::Arr(out)
}

/// An element into its wire object, exactly as `encode_element_spec` says.
pub fn encode_element(element: &MQTTElement) -> (r: Json)
    ensures
        r.deep_view() == encode_element_spec(element.deep_view()),
{
    match element {
        MQTTElement::Node { id, labels, properties } => {
            let mut entries: Vec<(String, Json)> = Vec::new();
            entries.push(("type".to_owned(), Json::Str("node".to_owned())));
            entries.push(("id".to_owned(), Json::Str(id.clone())));
            entries.push(("labels".to_owned(), encode_labels(labels)));
            entries.push(("properties".to_owned(), Json::Obj(clone_entries(properties))));
            proof {
                assert(entries.deep_view() =~= encode_element_spec(element.deep_view())->Obj_0);
            }
            Json::Obj(entries)
        },
        MQTTElement::Relation { id, labels, from, to, properties } => {
            let mut entries: Vec<(String, Json)> = Vec::new();
            entries.push(("type".to_owned(), Json::Str("relation".to_owned())));
            entries.push(("id".to_owned(), Json::Str(id.clone())));
            entries.push(("labels".to_owned(), encode_labels(labels)));
            entries.push(("from".to_owned(), Json::Str(from.clone())));
            entries.push(("to".to_owned(), Json::Str(to.clone())));
            entries.push(("properties".to_owned(), Json::Obj(clone_entries(properties))));
            proof {
                assert(entries.deep_view() =~= encode_element_spec(element.deep_view())->Obj_0);
            }
            Json::Obj(entries)
        },
    }
}

/// A change operation into its wire object, exactly as `encode_spec` says:
/// what `decode_change` reads back unchanged.
pub fn encode_change(change: &MQTTSourceChange) -> (r: Json)
    ensures
        r.deep_view() == encode_spec(change.deep_view()),
{
    let mut entries: Vec<(String, Json)> = Vec::new();
    let timestamp: &Option<u64> = match change {
        MQTTSourceChange::Insert { element, timestamp } => {
            entries.push(("operation".to_owned(), Json::Str("insert".to_owned())));
            entries.push(("element".to_owned(), encode_element(element)));
            timestamp
        },
        MQTTSourceChange::Update { element, timestamp } => {
            entries.push(("operation".to_owned(), Json::Str("update".to_owned())));
            entries.push(("element".to_owned(), encode_element(element)));
            timestamp
        },
        MQTTSourceChange::Delete { id, labels, timestamp } => {
            entries.push(("operation".to_owned(), Json::Str("delete".to_owned())));
            entries.push(("id".to_owned(), Json::Str(id.clone())));
            match labels {
                Some(ls) => entries.push(("labels".to_owned(), encode_labels(ls))),
                None => (),
            }
            timestamp
        },
    };
    match timestamp {
        Some(t) => entries.push(("timestamp".to_owned(), Json::Int(*t as i64))),
        None => (),
    }
    proof {
        assert(entries.deep_view() =~= encode_spec(change.deep_view())->Obj_0);
    }
    Json::Obj(entries)
}

/// A change whose timestamp, if present, fits the wire's signed integer
/// range.
pub open spec fn wf_change(c: MQTTSourceChangeS) -> bool {
    match change_ts(c) {
        Option::Some(t) => t <= i64::MAX as u64,
        Option::None => true,
    }
}

/// The schema's member names and tags, pinned down far enough to tell each
/// pair apart where a lookup must walk past one to reach another.
proof fn lemma_schema_keys()
    ensures
        "operation"@ != "element"@,
        "operation"@ != "timestamp"@,
        "operation"@ != "id"@,
        "operation"@ != "labels"@,
        "element"@ != "timestamp"@,
        "id"@ != "labels"@,
        "id"@ != "timestamp"@,
        "labels"@ != "timestamp"@,
        "insert"@ != "update"@,
        "insert"@ != "delete"@,
        "update"@ != "delete"@,
        "node"@ != "relation"@,
        "type"@ != "id"@,
        "type"@ != "labels"@,
        "type"@ != "properties"@,
        "type"@ != "from"@,
        "type"@ != "to"@,
        "id"@ != "properties"@,
        "id"@ != "from"@,
        "id"@ != "to"@,
        "labels"@ != "properties"@,
        "labels"@ != "from"@,
        "labels"@ != "to"@,
        "properties"@ != "from"@,
        "properties"@ != "to"@,
        "properties"@ != "timestamp"@,
        "from"@ != "to"@,
        "from"@ != "timestamp"@,
        "to"@ != "timestamp"@,
{
    broadcast use vstd::string::group_string_axioms;

    reveal_strlit("operation");
    reveal_strlit("element");
    reveal_strlit("timestamp");
    reveal_strlit("id");
    reveal_strlit("labels");
    reveal_strlit("properties");
    reveal_strlit("type");
    reveal_strlit("from");
    reveal_strlit("to");
    reveal_strlit("insert");
    reveal_strlit("update");
    reveal_strlit("delete");
    reveal_strlit("node");
    reveal_strlit("relation");
    assert("node"@.len() == 4 && "relation"@.len() == 8);
    assert("type"@.len() == 4 && "to"@.len() == 2);
    assert("labels"@.len() == 6 && "properties"@.len() == 10);
    assert("operation"@[0] == 'o' && "timestamp"@[0] == 't');
    assert("insert"@[0] == 'i' && "update"@[0] == 'u' && "delete"@[0] == 'd');
    assert("type"@[0] == 't' && "from"@[0] == 'f');
    assert("id"@[0] == 'i' && "to"@[0] == 't');
}

/// Labels survive the trip through their wire encoding.
proof fn lemma_labels_roundtrip(ls: Seq<Seq<char>>)
    ensures
        spec_labels(encode_labels_spec(ls)) == Option::Some(ls),
{
    let enc = encode_labels_spec(ls)->Arr_0;
    assert(all_strings(enc));
    assert(string_seq(enc) =~= ls);
}

/// An element survives the trip through its wire encoding.
proof fn lemma_element_roundtrip(e: MQTTElementS)
    ensures
        spec_element(encode_element_spec(e)) == Option::Some(e),
{
    lemma_schema_keys();
    reveal_with_fuel(obj_get, 8);
    match e {
        MQTTElementS::Node { id, labels, properties } => {
            let entries = encode_element_spec(e)->Obj_0;
            assert(obj_get(entries, "type"@) == Option::Some(JsonS::Str("node"@)));
            assert(obj_get(entries, "id"@) == Option::Some(JsonS::Str(id)));
            assert(obj_get(entries, "labels"@) == Option::Some(encode_labels_spec(labels)));
            assert(obj_get(entries, "properties"@) == Option::Some(JsonS::Obj(properties)));
            lemma_labels_roundtrip(labels);
        },
        MQTTElementS::Relation { id, labels, from, to, properties } => {
            let entries = encode_element_spec(e)->Obj_0;
            assert(obj_get(entries, "type"@) == Option::Some(JsonS::Str("relation"@)));
            assert(obj_get(entries, "id"@) == Option::Some(JsonS::Str(id)));
            assert(obj_get(entries, "labels"@) == Option::Some(encode_labels_spec(labels)));
            assert(obj_get(entries, "from"@) == Option::Some(JsonS::Str(from)));
            assert(obj_get(entries, "to"@) == Option::Some(JsonS::Str(to)));
            assert(obj_get(entries, "properties"@) == Option::Some(JsonS::Obj(properties)));
            lemma_labels_roundtrip(labels);
        },
    }
}

/// Round trip: a well-formed change operation, encoded to its wire object
/// and decoded again, comes back unchanged.
pub proof fn lemma_encode_decode(c: MQTTSourceChangeS)
    requires
        wf_change(c),
    ensures
        decode_spec(encode_spec(c)) == Result::<MQTTSourceChangeS, DecodeError>::Ok(c),
{
    lemma_schema_keys();
    reveal_with_fuel(obj_get, 8);
    match c {
        MQTTSourceChangeS::Insert { element, timestamp } => {
            let entries = encode_spec(c)->Obj_0;
            assert(obj_get(entries, "operation"@) == Option::Some(JsonS::Str("insert"@)));
            assert(obj_get(entries, "element"@) == Option::Some(encode_element_spec(element)));
            lemma_element_roundtrip(element);
            match timestamp {
                Option::Some(t) => {
                    assert(obj_get(entries, "timestamp"@) == Option::Some(
                        JsonS::Int(t as i64),
                    ));
                    assert((t as i64) as u64 == t);
                },
                Option::None => {
                    assert(obj_get(entries, "timestamp"@) is None);
                },
            }
        },
        MQTTSourceChangeS::Update { element, timestamp } => {
            let entries = encode_spec(c)->Obj_0;
            assert(obj_get(entries, "operation"@) == Option::Some(JsonS::Str("update"@)));
            assert(obj_get(entries, "element"@) == Option::Some(encode_element_spec(element)));
            lemma_element_roundtrip(element);
            match timestamp {
                Option::Some(t) => {
                    assert(obj_get(entries, "timestamp"@) == Option::Some(
                        JsonS::Int(t as i64),
                    ));
                    assert((t as i64) as u64 == t);
                },
                Option::None => {
                    assert(obj_get(entries, "timestamp"@) is None);
                },
            }
        },
        MQTTSourceChangeS::Delete { id, labels, timestamp } => {
            let entries = encode_spec(c)->Obj_0;
            assert(obj_get(entries, "operation"@) == Option::Some(JsonS::Str("delete"@)));
            assert(obj_get(entries, "id"@) == Option::Some(JsonS::Str(id)));
            match labels {
                Option::Some(ls) => {
                    assert(obj_get(entries, "labels"@) == Option::Some(encode_labels_spec(ls)));
                    lemma_labels_roundtrip(ls);
                },
                Option::None => {
                    assert(obj_get(entries, "labels"@) is None);
                },
            }
            match timestamp {
                Option::Some(t) => {
                    assert(obj_get(entries, "timestamp"@) == Option::Some(
                        JsonS::Int(t as i64),
                    ));
                    assert((t as i64) as u64 == t);
                },
                Option::None => {
                    assert(obj_get(entries, "timestamp"@) is None);
                },
            }
        },
    }
}

} // verus!
