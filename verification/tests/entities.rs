use surreal_ql::proxy::SurrealDeserializer;
use surreal_ql::proxy::SurrealSerializer;
use surreal_ql::record::Record;
use surreal_ql::surreal_edge::Edge;
use surreal_ql::surreal_edge::IntoRelation;
use surreal_ql::surreal_id::Link;
use surreal_ql::surreal_id::SurrealId;
use surreal_ql::surreal_qr::SurrealResponseError;
use surreal_ql::value::Number;
use surreal_ql::value::Object;
use surreal_ql::value::Thing;
use surreal_ql::value::Value;

fn thing(table: &str, key: &str) -> Thing {
    Thing {
        table: table.to_string(),
        key: key.to_string(),
    }
}

fn entry(key: &str, value: Value) -> (String, Value) {
    (key.to_string(), value)
}

fn knows_object() -> Value {
    Value::Object(Object {
        entries: vec![
            entry("id", Value::Thing(thing("knows", "1"))),
            entry("name", Value::Strand("knows".to_string())),
        ],
    })
}

#[test]
fn link_from_identifier_leaf_is_identifier_only() {
    let link = Link::<Record>::deserialize(&Value::Thing(thing("person", "alice"))).unwrap();
    match &link {
        Link::Id(t) => assert_eq!(*t, thing("person", "alice")),
        Link::Record(_) => panic!("expected an identifier-only reference"),
    }
    assert_eq!(link.id(), thing("person", "alice"));
}

#[test]
fn link_from_object_is_inline_record() {
    let link = Link::<Record>::deserialize(&knows_object()).unwrap();
    assert_eq!(link.id(), thing("knows", "1"));
    let record = link.record();
    assert_eq!(record.id, thing("knows", "1"));
    assert_eq!(record.data.entries.len(), 2);
}

#[test]
fn link_from_single_object_array_coerces() {
    let tree = Value::Array(vec![knows_object()]);
    let link = Link::<Record>::deserialize(&tree).unwrap();
    assert_eq!(link.id(), thing("knows", "1"));
}

#[test]
fn link_from_other_shapes_is_object_error() {
    let two = Value::Array(vec![knows_object(), knows_object()]);
    assert_eq!(
        Link::<Record>::deserialize(&two).unwrap_err(),
        SurrealResponseError::ExpectedAnObject
    );
    let number = Value::Number(Number::Int(1));
    assert_eq!(
        Link::<Record>::deserialize(&number).unwrap_err(),
        SurrealResponseError::ExpectedAnObject
    );
}

#[test]
fn link_serializes_as_a_pointer_not_a_payload() {
    let inline = Link::<Record>::deserialize(&knows_object()).unwrap();
    let written = inline.serialize();
    assert_eq!(written, Value::Thing(thing("knows", "1")));
}

#[test]
fn links_compare_by_identifier() {
    let by_id = Link::<Record>::Id(thing("knows", "1"));
    let inline = Link::<Record>::deserialize(&knows_object()).unwrap();
    assert!(by_id == inline);
    let other = Link::<Record>::Id(thing("knows", "2"));
    assert!(by_id != other);
}

#[test]
fn record_requires_its_identifier_field() {
    let no_id = Value::Object(Object {
        entries: vec![entry("name", Value::Strand("x".to_string()))],
    });
    assert_eq!(
        Record::deserialize(&no_id).unwrap_err(),
        SurrealResponseError::CannotReadNoneValue
    );
    let wrong_id = Value::Object(Object {
        entries: vec![entry("id", Value::Bool(true))],
    });
    assert_eq!(
        Record::deserialize(&wrong_id).unwrap_err(),
        SurrealResponseError::ExpectedAThing
    );
}

#[test]
fn relate_wraps_endpoints_as_identifier_links() {
    let payload = Record::deserialize(&knows_object()).unwrap();
    let edge = payload.relate(thing("person", "alice"), thing("person", "bob"));
    match &edge.in_ {
        Some(Link::Id(t)) => assert_eq!(*t, thing("person", "alice")),
        _ => panic!("expected an identifier-only incoming endpoint"),
    }
    match &edge.out {
        Some(Link::Id(t)) => assert_eq!(*t, thing("person", "bob")),
        _ => panic!("expected an identifier-only outgoing endpoint"),
    }
    assert_eq!(edge.id(), thing("knows", "1"));
}

#[test]
fn edge_serializes_as_its_payload_identifier() {
    let payload = Record::deserialize(&knows_object()).unwrap();
    let edge = payload.relate(thing("person", "alice"), thing("person", "bob"));
    assert_eq!(edge.serialize(), Value::Thing(thing("knows", "1")));
}

#[test]
fn edge_reads_endpoints_and_flattened_payload() {
    let tree = Value::Object(Object {
        entries: vec![
            entry("id", Value::Thing(thing("knows", "1"))),
            entry("in", Value::Thing(thing("person", "alice"))),
            entry("out", Value::Thing(thing("person", "bob"))),
            entry("name", Value::Strand("knows".to_string())),
        ],
    });
    let edge = Edge::<Thing, Record, Thing>::deserialize(&tree).unwrap();
    match &edge.in_ {
        Some(Link::Id(t)) => assert_eq!(*t, thing("person", "alice")),
        _ => panic!("expected an incoming endpoint"),
    }
    match &edge.out {
        Some(Link::Id(t)) => assert_eq!(*t, thing("person", "bob")),
        _ => panic!("expected an outgoing endpoint"),
    }
    // The payload reads out of the same object: its fields sit beside
    // the endpoints.
    assert_eq!(edge.data.id, thing("knows", "1"));
    assert_eq!(edge.data.data.entries.len(), 4);
}

#[test]
fn edge_missing_endpoints_read_as_none() {
    let tree = Value::Object(Object {
        entries: vec![entry("id", Value::Thing(thing("knows", "1")))],
    });
    let edge = Edge::<Thing, Record, Thing>::deserialize(&tree).unwrap();
    assert!(edge.in_.is_none());
    assert!(edge.out.is_none());
}

#[test]
fn edge_rejects_a_longer_array() {
    let tree = Value::Array(vec![knows_object(), knows_object()]);
    assert_eq!(
        Edge::<Thing, Record, Thing>::deserialize(&tree).unwrap_err(),
        SurrealResponseError::ExpectedAnArrayWith1ItemToDeserializeToObject
    );
}

#[test]
fn edge_rejects_a_bad_endpoint_shape() {
    let tree = Value::Object(Object {
        entries: vec![
            entry("id", Value::Thing(thing("knows", "1"))),
            entry("in", Value::Bool(true)),
        ],
    });
    assert_eq!(
        Edge::<Thing, Record, Thing>::deserialize(&tree).unwrap_err(),
        SurrealResponseError::ExpectedAnObject
    );
}
