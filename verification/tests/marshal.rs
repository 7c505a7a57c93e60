use surreal_ql::proxy::SurrealDeserializer;
use surreal_ql::proxy::SurrealSerializer;
use surreal_ql::record::Record;
use surreal_ql::surreal_qr::SurrealQR;
use surreal_ql::surreal_qr::SurrealResponseError;
use surreal_ql::value::Bytes;
use surreal_ql::value::Datetime;
use surreal_ql::value::Duration;
use surreal_ql::value::GeometryPoint;
use surreal_ql::value::Number;
use surreal_ql::value::Object;
use surreal_ql::value::Thing;
use surreal_ql::value::Uuid;
use surreal_ql::value::Value;

fn thing(table: &str, key: &str) -> Thing {
    Thing {
        table: table.to_string(),
        key: key.to_string(),
    }
}

#[test]
fn round_trip_integers() {
    let v = (-12345i64).serialize();
    assert_eq!(i64::deserialize(&v).unwrap(), -12345);
    let v = 42i32.serialize();
    assert_eq!(i32::deserialize(&v).unwrap(), 42);
    let v = 7u64.serialize();
    assert_eq!(u64::deserialize(&v).unwrap(), 7);
}

#[test]
fn round_trip_bool_and_string() {
    let v = true.serialize();
    assert_eq!(bool::deserialize(&v).unwrap(), true);
    let v = "knows".to_string().serialize();
    assert_eq!(String::deserialize(&v).unwrap(), "knows");
}

#[test]
fn round_trip_identifier() {
    let v = thing("person", "alice").serialize();
    let back = Thing::deserialize(&v).unwrap();
    assert_eq!(back, thing("person", "alice"));
}

#[test]
fn round_trip_uuid_duration_datetime_bytes() {
    let u = Uuid {
        bits: 0x550e8400e29b41d4a716446655440000,
    };
    assert_eq!(Uuid::deserialize(&u.serialize()).unwrap(), u);

    let d = Duration {
        secs: 90,
        nanos: 250,
    };
    assert_eq!(Duration::deserialize(&d.serialize()).unwrap(), d);

    let t = Datetime {
        seconds: 1700000000,
        nanos: 1,
    };
    assert_eq!(Datetime::deserialize(&t.serialize()).unwrap(), t);

    let b = Bytes {
        data: vec![0xde, 0xad, 0xbe, 0xef],
    };
    assert_eq!(Bytes::deserialize(&b.clone().serialize()).unwrap(), b);
}

#[test]
fn float_leaf_keeps_exact_bits() {
    let bits = 1.5f64.to_bits();
    let tree = SurrealQR(Value::Number(Number::Float(bits)));
    let back = tree.as_float_bits().unwrap();
    assert_eq!(f64::from_bits(back), 1.5);
}

#[test]
fn integer_and_float_never_coerce() {
    let float_tree = Value::Number(Number::Float(1.0f64.to_bits()));
    assert_eq!(
        i64::deserialize(&float_tree).unwrap_err(),
        SurrealResponseError::ExpectedANumberI64
    );
    let int_tree = Value::Number(Number::Int(1));
    assert_eq!(
        SurrealQR(int_tree).as_float_bits().unwrap_err(),
        SurrealResponseError::ExpectedANumberF64
    );
}

#[test]
fn string_never_coerces_to_number() {
    let tree = Value::Strand("3".to_string());
    assert_eq!(
        i64::deserialize(&tree).unwrap_err(),
        SurrealResponseError::ExpectedANumberI64
    );
}

#[test]
fn narrow_integers_check_their_range() {
    let wide = Value::Number(Number::Int(i64::MAX));
    assert_eq!(
        i32::deserialize(&wide).unwrap_err(),
        SurrealResponseError::ExpectedANumberI64
    );
    let negative = Value::Number(Number::Int(-1));
    assert_eq!(
        u64::deserialize(&negative).unwrap_err(),
        SurrealResponseError::ExpectedANumberI64
    );
}

#[test]
fn sequence_round_trip_keeps_order() {
    let v = vec![1i64, 2, 3].serialize();
    let back: Vec<i64> = Vec::deserialize(&v).unwrap();
    assert_eq!(back, vec![1, 2, 3]);
}

#[test]
fn sequence_from_non_array_is_array_error() {
    let tree = Value::Number(Number::Int(1));
    assert_eq!(
        Vec::<i64>::deserialize(&tree).unwrap_err(),
        SurrealResponseError::ExpectedAnArray
    );
    assert_eq!(
        Vec::<i64>::deserialize(&Value::Absent).unwrap_err(),
        SurrealResponseError::ExpectedAnArray
    );
}

#[test]
fn sequence_propagates_first_member_error() {
    let tree = Value::Array(vec![
        Value::Number(Number::Int(1)),
        Value::Strand("x".to_string()),
    ]);
    assert_eq!(
        Vec::<i64>::deserialize(&tree).unwrap_err(),
        SurrealResponseError::ExpectedANumberI64
    );
}

#[test]
fn optional_reads_absent_as_none() {
    let out: Option<i64> = Option::deserialize(&Value::Absent).unwrap();
    assert_eq!(out, None);
    let out: Option<i64> = Option::deserialize(&Value::Number(Number::Int(4))).unwrap();
    assert_eq!(out, Some(4));
}

#[test]
fn optional_softens_inner_no_value_signal() {
    // A record without its required `id` reports the "no value" signal;
    // inside an optional that collapses to None instead of an error.
    let tree = Value::Object(Object {
        entries: vec![("name".to_string(), Value::Strand("x".to_string()))],
    });
    assert_eq!(
        Record::deserialize(&tree).unwrap_err(),
        SurrealResponseError::CannotReadNoneValue
    );
    let softened: Option<Record> = Option::deserialize(&tree).unwrap();
    assert!(softened.is_none());
}

#[test]
fn optional_propagates_other_errors() {
    let tree = Value::Strand("x".to_string());
    assert_eq!(
        Option::<i64>::deserialize(&tree).unwrap_err(),
        SurrealResponseError::ExpectedANumberI64
    );
}

#[test]
fn optional_serializes_none_as_absent() {
    let v = Option::<i64>::None.serialize();
    assert_eq!(v, Value::Absent);
    let v = Some(3i64).serialize();
    assert_eq!(v, Value::Number(Number::Int(3)));
}

#[test]
fn boxed_values_forward_both_directions() {
    let v = Box::new(11i64).serialize();
    assert_eq!(v, Value::Number(Number::Int(11)));
    let back: Box<i64> = Box::deserialize(&v).unwrap();
    assert_eq!(*back, 11);
}

#[test]
fn from_option_normalizes_an_elided_argument() {
    let out: Option<i64> = Option::from_option(None).unwrap();
    assert_eq!(out, None);
    assert_eq!(
        i64::from_option(None).unwrap_err(),
        SurrealResponseError::ExpectedANumberI64
    );
    let tree = Value::Number(Number::Int(9));
    assert_eq!(i64::from_option(Some(&tree)).unwrap(), 9);
}

#[test]
fn scalar_accessors_match_their_variant() {
    assert_eq!(
        SurrealQR(Value::Bool(true)).boolean().unwrap(),
        Some(true)
    );
    assert_eq!(SurrealQR(Value::Absent).boolean().unwrap(), None);
    assert_eq!(
        SurrealQR(Value::Strand("s".to_string())).strand().unwrap(),
        Some("s".to_string())
    );
    assert_eq!(
        SurrealQR(Value::Thing(thing("a", "b"))).thing().unwrap(),
        Some(thing("a", "b"))
    );
    let d = Duration { secs: 1, nanos: 2 };
    assert_eq!(
        SurrealQR(Value::Duration(d)).duration().unwrap(),
        Some(d)
    );
    let t = Datetime {
        seconds: 3,
        nanos: 4,
    };
    assert_eq!(SurrealQR(Value::Datetime(t)).datetime().unwrap(), Some(t));
    let g = GeometryPoint {
        long_bits: 1,
        lat_bits: 2,
    };
    assert_eq!(SurrealQR(Value::Geometry(g)).geometry().unwrap(), Some(g));
    let u = Uuid { bits: 9 };
    assert_eq!(SurrealQR(Value::Uuid(u)).uuid().unwrap(), Some(u));
    let b = Bytes { data: vec![1, 2] };
    assert_eq!(
        SurrealQR(Value::Bytes(b.clone())).bytes().unwrap(),
        Some(b)
    );
    assert_eq!(
        SurrealQR(Value::Number(Number::Int(5))).as_i64().unwrap(),
        5
    );
}

#[test]
fn scalar_accessors_name_the_expected_shape() {
    let s = || Value::Strand("x".to_string());
    let n = || Value::Number(Number::Int(0));
    assert_eq!(
        SurrealQR(n()).strand().unwrap_err(),
        SurrealResponseError::ExpectedAStrand
    );
    assert_eq!(
        SurrealQR(s()).number().unwrap_err(),
        SurrealResponseError::ExpectedANumber
    );
    assert_eq!(
        SurrealQR(s()).thing().unwrap_err(),
        SurrealResponseError::ExpectedAThing
    );
    assert_eq!(
        SurrealQR(s()).duration().unwrap_err(),
        SurrealResponseError::ExpectedADuration
    );
    assert_eq!(
        SurrealQR(s()).datetime().unwrap_err(),
        SurrealResponseError::ExpectedADatetime
    );
    assert_eq!(
        SurrealQR(s()).geometry().unwrap_err(),
        SurrealResponseError::ExpectedAGeometry
    );
    assert_eq!(
        SurrealQR(s()).boolean().unwrap_err(),
        SurrealResponseError::ExpectedABool
    );
    assert_eq!(
        SurrealQR(s()).uuid().unwrap_err(),
        SurrealResponseError::ExpectedAUuid
    );
    assert_eq!(
        SurrealQR(s()).bytes().unwrap_err(),
        SurrealResponseError::ExpectedABytes
    );
    assert_eq!(
        SurrealQR(s()).as_i64().unwrap_err(),
        SurrealResponseError::ExpectedANumber
    );
    assert_eq!(
        SurrealQR(Value::Absent).as_i64().unwrap_err(),
        SurrealResponseError::ExpectedANumberI64
    );
}

#[test]
fn object_accessor_applies_the_coercion() {
    let obj = Object {
        entries: vec![("a".to_string(), Value::Number(Number::Int(1)))],
    };
    let tree = SurrealQR(Value::Array(vec![Value::Object(obj)]));
    let inner = tree.object().unwrap().unwrap();
    assert_eq!(inner.entries.len(), 1);

    let absent = SurrealQR(Value::Absent);
    assert!(absent.object().unwrap().is_none());

    let not_an_object = SurrealQR(Value::Bool(false));
    assert_eq!(
        not_an_object.object().unwrap_err(),
        SurrealResponseError::ExpectedAnObject
    );
}

#[test]
fn error_names_follow_the_members() {
    assert_eq!(
        SurrealResponseError::ExpectedAnObject.name(),
        "ExpectedAnObject"
    );
    assert_eq!(SurrealResponseError::OutOfRange.name(), "OutOfRange");
    assert_eq!(
        SurrealResponseError::CannotReadNoneValue.name(),
        "CannotReadNoneValue"
    );
}
