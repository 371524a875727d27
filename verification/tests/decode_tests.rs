use drasi_source_mqtt::decode::{
    decode_change, encode_change, map_json_to_mqtt_source_change, DecodeError,
};
use drasi_source_mqtt::json::Json;
use drasi_source_mqtt::model::{MQTTElement, MQTTSourceChange};

fn node_change(timestamp: Option<u64>) -> MQTTSourceChange {
    MQTTSourceChange::Insert {
        element: MQTTElement::Node {
            id: "n1".to_string(),
            labels: vec!["Sensor".to_string(), "Device".to_string()],
            properties: vec![
                ("name".to_string(), Json::Str("probe".to_string())),
                ("val".to_string(), Json::Int(42)),
            ],
        },
        timestamp,
    }
}

fn to_serde(j: &Json) -> serde_json::Value {
    match j {
        Json::Null => serde_json::Value::Null,
        Json::Bool(b) => serde_json::Value::Bool(*b),
        Json::Int(i) => serde_json::Value::Number(serde_json::Number::from(*i)),
        Json::Float(bits) => serde_json::Value::Number(
            serde_json::Number::from_f64(f64::from_bits(*bits)).unwrap(),
        ),
        Json::Str(s) => serde_json::Value::String(s.clone()),
        Json::Arr(items) => serde_json::Value::Array(items.iter().map(to_serde).collect()),
        Json::Obj(entries) => serde_json::Value::Object(
            entries.iter().map(|e| (e.0.clone(), to_serde(&e.1))).collect(),
        ),
    }
}

#[test]
fn decode_insert_node() {
    let payload = r#"{"operation":"insert","element":{"type":"node","id":"n1",
        "labels":["Sensor","Device"],
        "properties":{"name":"probe","val":42}},"timestamp":7}"#;
    let change = map_json_to_mqtt_source_change(payload).unwrap();
    match change {
        MQTTSourceChange::Insert { element, timestamp } => {
            assert_eq!(timestamp, Some(7));
            match element {
                MQTTElement::Node { id, labels, properties } => {
                    assert_eq!(id, "n1");
                    assert_eq!(labels, vec!["Sensor".to_string(), "Device".to_string()]);
                    assert_eq!(
                        properties,
                        vec![
                            ("name".to_string(), Json::Str("probe".to_string())),
                            ("val".to_string(), Json::Int(42)),
                        ]
                    );
                }
                other => panic!("expected a node, got {:?}", other),
            }
        }
        other => panic!("expected an insert, got {:?}", other),
    }
}

#[test]
fn decode_update_without_timestamp() {
    let payload = r#"{"operation":"update","element":{"type":"node","id":"n2","labels":[]}}"#;
    let change = map_json_to_mqtt_source_change(payload).unwrap();
    assert_eq!(
        change,
        MQTTSourceChange::Update {
            element: MQTTElement::Node {
                id: "n2".to_string(),
                labels: vec![],
                properties: vec![],
            },
            timestamp: None,
        }
    );
}

#[test]
fn decode_relation() {
    let payload = r#"{"operation":"insert","element":{"type":"relation","id":"r1",
        "labels":["Reads"],"from":"n1","to":"n2","properties":{"w":true}}}"#;
    let change = map_json_to_mqtt_source_change(payload).unwrap();
    assert_eq!(
        change,
        MQTTSourceChange::Insert {
            element: MQTTElement::Relation {
                id: "r1".to_string(),
                labels: vec!["Reads".to_string()],
                from: "n1".to_string(),
                to: "n2".to_string(),
                properties: vec![("w".to_string(), Json::Bool(true))],
            },
            timestamp: None,
        }
    );
}

#[test]
fn decode_delete_with_labels() {
    let payload = r#"{"operation":"delete","id":"n1","labels":["Sensor"],"timestamp":3}"#;
    let change = map_json_to_mqtt_source_change(payload).unwrap();
    assert_eq!(
        change,
        MQTTSourceChange::Delete {
            id: "n1".to_string(),
            labels: Some(vec!["Sensor".to_string()]),
            timestamp: Some(3),
        }
    );
}

#[test]
fn decode_delete_without_labels() {
    let payload = r#"{"operation":"delete","id":"n1"}"#;
    let change = map_json_to_mqtt_source_change(payload).unwrap();
    assert_eq!(
        change,
        MQTTSourceChange::Delete { id: "n1".to_string(), labels: None, timestamp: None }
    );
}

#[test]
fn truncated_json_is_malformed() {
    let payload = r#"{"operation":"insert","element":{"type":"no"#;
    assert_eq!(map_json_to_mqtt_source_change(payload), Err(DecodeError::Malformed));
}

#[test]
fn non_object_is_rejected() {
    assert_eq!(map_json_to_mqtt_source_change("[1,2,3]"), Err(DecodeError::NotAnObject));
    assert_eq!(map_json_to_mqtt_source_change("42"), Err(DecodeError::NotAnObject));
}

#[test]
fn missing_operation_is_rejected() {
    assert_eq!(map_json_to_mqtt_source_change("{}"), Err(DecodeError::MissingOperation));
}

#[test]
fn unknown_operation_is_rejected() {
    assert_eq!(
        map_json_to_mqtt_source_change(r#"{"operation":"upsert"}"#),
        Err(DecodeError::UnknownOperation)
    );
    assert_eq!(
        map_json_to_mqtt_source_change(r#"{"operation":5}"#),
        Err(DecodeError::UnknownOperation)
    );
}

#[test]
fn insert_without_element_is_rejected() {
    assert_eq!(
        map_json_to_mqtt_source_change(r#"{"operation":"insert","timestamp":1}"#),
        Err(DecodeError::MissingElement)
    );
}

#[test]
fn bad_element_is_rejected() {
    assert_eq!(
        map_json_to_mqtt_source_change(r#"{"operation":"insert","element":17}"#),
        Err(DecodeError::BadElement)
    );
    assert_eq!(
        map_json_to_mqtt_source_change(
            r#"{"operation":"insert","element":{"type":"node","labels":[]}}"#
        ),
        Err(DecodeError::BadElement)
    );
    assert_eq!(
        map_json_to_mqtt_source_change(
            r#"{"operation":"insert","element":{"type":"graph","id":"x","labels":[]}}"#
        ),
        Err(DecodeError::BadElement)
    );
}

#[test]
fn delete_without_id_is_rejected() {
    assert_eq!(
        map_json_to_mqtt_source_change(r#"{"operation":"delete"}"#),
        Err(DecodeError::MissingId)
    );
}

#[test]
fn wrongly_shaped_members_are_rejected() {
    assert_eq!(
        map_json_to_mqtt_source_change(r#"{"operation":"delete","id":"n","labels":"x"}"#),
        Err(DecodeError::BadField)
    );
    assert_eq!(
        map_json_to_mqtt_source_change(r#"{"operation":"delete","id":"n","timestamp":-4}"#),
        Err(DecodeError::BadField)
    );
    assert_eq!(
        map_json_to_mqtt_source_change(r#"{"operation":"delete","id":"n","timestamp":1.5}"#),
        Err(DecodeError::BadField)
    );
    assert_eq!(
        map_json_to_mqtt_source_change(r#"{"operation":"delete","id":9}"#),
        Err(DecodeError::BadField)
    );
}

#[test]
fn numbers_classify_as_integer_or_float() {
    let payload = r#"{"operation":"insert","element":{"type":"node","id":"n","labels":[],
        "properties":{"a":1,"b":1.5,"c":9223372036854775808}}}"#;
    let change = map_json_to_mqtt_source_change(payload).unwrap();
    let props = match change {
        MQTTSourceChange::Insert { element: MQTTElement::Node { properties, .. }, .. } => {
            properties
        }
        other => panic!("unexpected shape: {:?}", other),
    };
    assert_eq!(
        props,
        vec![
            ("a".to_string(), Json::Int(1)),
            ("b".to_string(), Json::Float(1.5f64.to_bits())),
            ("c".to_string(), Json::Float(9223372036854775808.0f64.to_bits())),
        ]
    );
}

#[test]
fn encode_then_decode_tree_roundtrip() {
    for change in [
        node_change(Some(7)),
        node_change(None),
        MQTTSourceChange::Delete {
            id: "n1".to_string(),
            labels: Some(vec!["Sensor".to_string()]),
            timestamp: Some(3),
        },
        MQTTSourceChange::Delete { id: "n2".to_string(), labels: None, timestamp: None },
    ] {
        let encoded = encode_change(&change);
        assert_eq!(decode_change(&encoded), Ok(change));
    }
}

#[test]
fn encode_then_decode_text_roundtrip() {
    let change = node_change(Some(11));
    let text = to_serde(&encode_change(&change)).to_string();
    assert_eq!(map_json_to_mqtt_source_change(&text), Ok(change));
}
