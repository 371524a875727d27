use std::time::{SystemTime, UNIX_EPOCH};

use drasi_source_mqtt::decode::DecodeError;
use drasi_source_mqtt::json::Json;
use drasi_source_mqtt::model::{
    convert_json_to_element_value, convert_mqtt_to_source_change,
    convert_mqtt_to_source_change_at, create_element_from_mqtt, Element, ElementMetadata,
    ElementReference, ElementValue, MQTTElement, MQTTSourceChange, SourceChange,
};
use drasi_source_mqtt::session::{handle_payload, handle_payload_at, handle_payload_bytes};

fn wall_millis() -> u64 {
    SystemTime::now().duration_since(UNIX_EPOCH).unwrap().as_millis() as u64
}

fn insert_with(timestamp: Option<u64>) -> MQTTSourceChange {
    MQTTSourceChange::Insert {
        element: MQTTElement::Node {
            id: "n1".to_string(),
            labels: vec!["Sensor".to_string()],
            properties: vec![("val".to_string(), Json::Int(42))],
        },
        timestamp,
    }
}

fn effective_from(change: &SourceChange) -> u64 {
    match change {
        SourceChange::Insert { element } | SourceChange::Update { element } => match element {
            Element::Node { metadata, .. } | Element::Relation { metadata, .. } => {
                metadata.effective_from
            }
        },
        SourceChange::Delete { metadata } => metadata.effective_from,
    }
}

#[test]
fn json_value_converts_exactly() {
    let json = Json::Obj(vec![
        ("a".to_string(), Json::Int(1)),
        (
            "b".to_string(),
            Json::Arr(vec![Json::Bool(true), Json::Null, Json::Str("x".to_string())]),
        ),
    ]);
    let expected = ElementValue::Object(vec![
        ("a".to_string(), ElementValue::Integer(1)),
        (
            "b".to_string(),
            ElementValue::List(vec![
                ElementValue::Bool(true),
                ElementValue::Null,
                ElementValue::String("x".to_string()),
            ]),
        ),
    ]);
    assert_eq!(convert_json_to_element_value(&json), Ok(expected));
}

#[test]
fn element_conversion_builds_metadata_and_properties() {
    let element = MQTTElement::Relation {
        id: "r1".to_string(),
        labels: vec!["Reads".to_string()],
        from: "n1".to_string(),
        to: "n2".to_string(),
        properties: vec![("w".to_string(), Json::Float(2.5f64.to_bits()))],
    };
    let converted = create_element_from_mqtt(&element, "src", 10).unwrap();
    assert_eq!(
        converted,
        Element::Relation {
            metadata: ElementMetadata {
                reference: ElementReference {
                    source_id: "src".to_string(),
                    element_id: "r1".to_string(),
                },
                labels: vec!["Reads".to_string()],
                effective_from: 10,
            },
            properties: vec![("w".to_string(), ElementValue::Float(2.5f64.to_bits()))],
            in_node: ElementReference {
                source_id: "src".to_string(),
                element_id: "n2".to_string(),
            },
            out_node: ElementReference {
                source_id: "src".to_string(),
                element_id: "n1".to_string(),
            },
        }
    );
}

#[test]
fn explicit_timestamp_is_preserved() {
    let change = insert_with(Some(42));
    let converted = convert_mqtt_to_source_change_at(&change, "src", 999_999).unwrap();
    assert_eq!(effective_from(&converted), 42);
}

#[test]
fn missing_timestamp_takes_the_given_instant() {
    let change = insert_with(None);
    let converted = convert_mqtt_to_source_change_at(&change, "src", 1234).unwrap();
    assert_eq!(effective_from(&converted), 1234);
}

#[test]
fn missing_timestamp_is_near_call_time() {
    let before = wall_millis();
    let converted = convert_mqtt_to_source_change(&insert_with(None), "src").unwrap();
    let after = wall_millis();
    let stamped = effective_from(&converted);
    assert!(before <= stamped && stamped <= after + 1000);
}

#[test]
fn delete_without_labels_gets_empty_label_set() {
    let change = MQTTSourceChange::Delete {
        id: "n1".to_string(),
        labels: None,
        timestamp: Some(5),
    };
    let converted = convert_mqtt_to_source_change_at(&change, "src", 0).unwrap();
    assert_eq!(
        converted,
        SourceChange::Delete {
            metadata: ElementMetadata {
                reference: ElementReference {
                    source_id: "src".to_string(),
                    element_id: "n1".to_string(),
                },
                labels: vec![],
                effective_from: 5,
            },
        }
    );
}

#[test]
fn malformed_payload_does_not_stop_the_stream() {
    let bad = r#"{"operation":"explode""#;
    let good = r#"{"operation":"delete","id":"n1"}"#;
    assert_eq!(handle_payload_at(bad, "src", 1).unwrap_err(), DecodeError::Malformed);
    let event = handle_payload_at(good, "src", 2).unwrap();
    assert_eq!(event.source_id, "src");
    assert!(matches!(event.change, SourceChange::Delete { .. }));
    let unknown = r#"{"operation":"upsert","id":"n1"}"#;
    assert_eq!(handle_payload_at(unknown, "src", 3).unwrap_err(), DecodeError::UnknownOperation);
    assert!(handle_payload_at(good, "src", 4).is_ok());
}

#[test]
fn end_to_end_insert_produces_one_exact_event() {
    let payload = r#"{"operation":"insert","element":{"type":"node","id":"n1",
        "labels":["Sensor"],"properties":{"val":42}}}"#;
    let event = handle_payload_at(payload, "mqtt-source", 77).unwrap();
    assert_eq!(event.source_id, "mqtt-source");
    assert_eq!(event.timestamp, 77);
    assert_eq!(
        event.change,
        SourceChange::Insert {
            element: Element::Node {
                metadata: ElementMetadata {
                    reference: ElementReference {
                        source_id: "mqtt-source".to_string(),
                        element_id: "n1".to_string(),
                    },
                    labels: vec!["Sensor".to_string()],
                    effective_from: 77,
                },
                properties: vec![("val".to_string(), ElementValue::Integer(42))],
            },
        }
    );
}

#[test]
fn live_clock_pipeline_dispatches() {
    let payload = r#"{"operation":"insert","element":{"type":"node","id":"n1",
        "labels":["Sensor"],"properties":{"val":42}}}"#;
    let before = wall_millis();
    let event = handle_payload(payload, "src").unwrap();
    let after = wall_millis();
    assert!(before <= event.timestamp && event.timestamp <= after + 1000);
    assert!(matches!(event.change, SourceChange::Insert { .. }));
}

#[test]
fn raw_bytes_are_read_as_lossy_text() {
    let payload = br#"{"operation":"delete","id":"n1"}"#;
    let event = handle_payload_bytes(payload, "src").unwrap();
    assert!(matches!(event.change, SourceChange::Delete { .. }));
    let garbage: [u8; 3] = [0xff, 0xfe, 0x00];
    assert_eq!(handle_payload_bytes(&garbage, "src").unwrap_err(), DecodeError::Malformed);
}
