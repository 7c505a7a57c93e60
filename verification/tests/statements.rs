use surreal_ql::proxy::SurrealDeserializer;
use surreal_ql::record::Record;
use surreal_ql::serialize::SurrealSerialize;
use surreal_ql::surreal_edge::Edge;
use surreal_ql::surreal_edge::IntoRelation;
use surreal_ql::surreal_id::Link;
use surreal_ql::surreal_qr::SurrealResponseError;
use surreal_ql::surreal_statement::array;
use surreal_ql::surreal_statement::content;
use surreal_ql::surreal_statement::id;
use surreal_ql::surreal_statement::record;
use surreal_ql::surreal_statement::relate;
use surreal_ql::surreal_statement::val;
use surreal_ql::value::Bytes;
use surreal_ql::value::Datetime;
use surreal_ql::value::Duration;
use surreal_ql::value::GeometryPoint;
use surreal_ql::value::Number;
use surreal_ql::value::Object;
use surreal_ql::value::Thing;
use surreal_ql::value::Uuid;
use surreal_ql::value::Value;

fn thing(table: &str, key: &str) -> Thing {
    Thing {
        table: table.to_string(),
        key: key.to_string(),
    }
}

fn entry(key: &str, value: Value) -> (String, Value) {
    (key.to_string(), value)
}

fn knows_payload() -> Record {
    Record {
        id: thing("knows", "1"),
        data: Object {
            entries: vec![
                entry("name", Value::Strand("knows".to_string())),
                entry(
                    "since",
                    Value::Datetime(Datetime {
                        seconds: 1700000000,
                        nanos: 0,
                    }),
                ),
            ],
        },
    }
}

#[test]
fn relate_statement_end_to_end() {
    let edge = knows_payload().relate(thing("person", "alice"), thing("person", "bob"));
    let text = relate(edge).unwrap();
    assert_eq!(
        text,
        "RELATE person:alice -> knows -> person:bob CONTENT {name:\"knows\", since:d'1700000000.000000000'}"
    );
}

#[test]
fn relate_fails_on_a_missing_endpoint() {
    let no_in: Edge<Thing, Record, Thing> = Edge {
        in_: None,
        out: Some(Link::Id(thing("person", "bob"))),
        data: knows_payload(),
    };
    assert_eq!(
        relate(no_in).unwrap_err(),
        SurrealResponseError::CannotReadNoneValue
    );
    let no_out: Edge<Thing, Record, Thing> = Edge {
        in_: Some(Link::Id(thing("person", "alice"))),
        out: None,
        data: knows_payload(),
    };
    assert_eq!(
        relate(no_out).unwrap_err(),
        SurrealResponseError::CannotReadNoneValue
    );
}

#[test]
fn record_statement_is_identifier_then_content() {
    let text = record(knows_payload());
    assert_eq!(
        text,
        "knows:1 CONTENT {name:\"knows\", since:d'1700000000.000000000'}"
    );
}

#[test]
fn id_renders_the_identifier_alone() {
    assert_eq!(id(&thing("person", "alice")), "person:alice");
    let link = Link::<Record>::Id(thing("person", "bob"));
    assert_eq!(id(&link), "person:bob");
}

#[test]
fn reference_rendering_agrees_between_variants() {
    let by_id = Link::<Record>::Id(thing("knows", "1"));
    let inline = Link::<Record>::Record(knows_payload());
    assert_eq!(id(&by_id), "knows:1");
    assert_eq!(id(&inline), "knows:1");
    assert_eq!(id(&by_id), id(&inline));
}

#[test]
fn content_prefixes_the_serialized_entity() {
    let text = content(knows_payload());
    assert_eq!(
        text,
        "CONTENT {name:\"knows\", since:d'1700000000.000000000'}"
    );
}

#[test]
fn array_and_val_render_plain_values() {
    assert_eq!(array(vec![1i64, 2, 3]), "[1, 2, 3]");
    assert_eq!(array(Vec::<i64>::new()), "[]");
    assert_eq!(val(-5i64), "-5");
    assert_eq!(val(i64::MIN), "-9223372036854775808");
    assert_eq!(val(true), "true");
    assert_eq!(val("a\"b\\c".to_string()), "\"a\\\"b\\\\c\"");
}

#[test]
fn leaves_render_in_their_canonical_forms() {
    let u = Uuid {
        bits: 0x550e8400e29b41d4a716446655440000,
    };
    assert_eq!(val(u), "550e8400-e29b-41d4-a716-446655440000");
    assert_eq!(val(Duration { secs: 90, nanos: 0 }), "90s");
    assert_eq!(val(Duration { secs: 1, nanos: 500 }), "1s500ns");
    assert_eq!(
        val(Datetime {
            seconds: -1,
            nanos: 5
        }),
        "d'-1.000000005'"
    );
    assert_eq!(
        val(Bytes {
            data: vec![0xde, 0xad]
        }),
        "b\"dead\""
    );
}

#[test]
fn containers_render_nested_values() {
    let rec = Record {
        id: thing("t", "k"),
        data: Object {
            entries: vec![
                entry("a", Value::Number(Number::Int(1))),
                entry(
                    "b",
                    Value::Array(vec![Value::Bool(true), Value::Null, Value::Absent]),
                ),
                entry("c", Value::Object(Object { entries: vec![] })),
            ],
        },
    };
    assert_eq!(content(rec), "CONTENT {a:1, b:[true, NULL, NONE], c:{}}");
}

#[test]
fn float_leaves_render_their_bit_pattern() {
    let bits = 1.5f64.to_bits();
    let rec = Record {
        id: thing("t", "k"),
        data: Object {
            entries: vec![entry("x", Value::Number(Number::Float(bits)))],
        },
    };
    assert_eq!(content(rec), "CONTENT {x:f64#3ff8000000000000}");
    let g = GeometryPoint {
        long_bits: 1.0f64.to_bits(),
        lat_bits: 2.0f64.to_bits(),
    };
    let rec = Record {
        id: thing("t", "k"),
        data: Object {
            entries: vec![entry("p", Value::Geometry(g))],
        },
    };
    assert_eq!(
        content(rec),
        "CONTENT {p:(f64#3ff0000000000000, f64#4000000000000000)}"
    );
}

#[test]
fn set_expression_joins_field_assignments() {
    assert_eq!(
        knows_payload().into_set_expression(),
        "SET name = \"knows\", since = d'1700000000.000000000'"
    );
    assert_eq!(
        thing("person", "alice").into_set_expression(),
        "SET id = person:alice"
    );
}

#[test]
fn content_expression_joins_bare_pairs() {
    assert_eq!(
        knows_payload().into_content_expression(),
        "name=\"knows\",since=d'1700000000.000000000'"
    );
    assert_eq!(
        thing("person", "alice").into_content_expression(),
        "id=person:alice"
    );
}

#[test]
fn id_expression_matches_the_identifier_text() {
    assert_eq!(
        thing("person", "alice").into_id_expression(),
        "person:alice"
    );
    assert_eq!(knows_payload().into_id_expression(), "knows:1");
}

#[test]
fn link_pairs_follow_the_variant() {
    let by_id = Link::<Record>::Id(thing("person", "alice"));
    assert_eq!(by_id.into_content_expression(), "id=person:alice");
    let inline = Link::<Record>::Record(knows_payload());
    assert_eq!(
        inline.into_content_expression(),
        "name=\"knows\",since=d'1700000000.000000000'"
    );
}

#[test]
fn edge_pairs_name_endpoints_and_relation() {
    let edge = knows_payload().relate(thing("person", "alice"), thing("person", "bob"));
    assert_eq!(
        edge.into_set_expression(),
        "SET in = person:alice, relation = knows:1, out = person:bob"
    );
    let half: Edge<Thing, Record, Thing> = Edge {
        in_: None,
        out: Some(Link::Id(thing("person", "bob"))),
        data: knows_payload(),
    };
    assert_eq!(
        half.into_set_expression(),
        "SET in = NONE, relation = knows:1, out = person:bob"
    );
}

#[test]
fn record_deserialize_then_render_round_trip() {
    let tree = Value::Object(Object {
        entries: vec![
            entry("id", Value::Thing(thing("knows", "1"))),
            entry("name", Value::Strand("knows".to_string())),
        ],
    });
    let rec = Record::deserialize(&tree).unwrap();
    assert_eq!(record(rec), "knows:1 CONTENT {id:knows:1, name:\"knows\"}");
}
