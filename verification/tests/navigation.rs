use surreal_ql::surreal_qr::select;
use surreal_ql::surreal_qr::select_optional;
use surreal_ql::surreal_qr::select_vec;
use surreal_ql::surreal_qr::RPath;
use surreal_ql::surreal_qr::SurrealQR;
use surreal_ql::surreal_qr::SurrealResponseError;
use surreal_ql::value::Number;
use surreal_ql::value::Object;
use surreal_ql::value::Value;

fn entry(key: &str, value: Value) -> (String, Value) {
    (key.to_string(), value)
}

fn object(entries: Vec<(String, Value)>) -> Value {
    Value::Object(Object { entries })
}

fn whole(i: i64) -> Value {
    Value::Number(Number::Int(i))
}

#[test]
fn navigation_identity_empty_chain() {
    let tree = SurrealQR(Value::Strand("x".to_string()));
    let out = tree.get(&RPath::Chain(vec![])).unwrap();
    assert_eq!(out.0, Value::Strand("x".to_string()));

    let null_tree = SurrealQR(Value::Null);
    let out = null_tree.get(&RPath::Chain(vec![])).unwrap();
    assert_eq!(out.0, Value::Null);
}

#[test]
fn coercion_single_object_array_reads_field() {
    let tree = SurrealQR(Value::Array(vec![object(vec![entry("a", whole(1))])]));
    let out = tree.get(&RPath::Field("a")).unwrap();
    assert_eq!(out.0, whole(1));
}

#[test]
fn coercion_empty_array_reads_as_absent() {
    let tree = SurrealQR(Value::Array(vec![]));
    let out = tree.get(&RPath::Field("a")).unwrap();
    assert_eq!(out.0, Value::Absent);
}

#[test]
fn coercion_two_member_array_is_object_error() {
    let tree = SurrealQR(Value::Array(vec![whole(1), whole(2)]));
    let err = tree.get(&RPath::Field("a")).unwrap_err();
    assert_eq!(err, SurrealResponseError::ExpectedAnObject);
}

#[test]
fn index_in_bounds_reads_member() {
    let tree = SurrealQR(Value::Array(vec![whole(7)]));
    let out = tree.get(&RPath::Index(0)).unwrap();
    assert_eq!(out.0, whole(7));
}

#[test]
fn index_past_length_is_out_of_range() {
    let tree = SurrealQR(Value::Array(vec![whole(7)]));
    let err = tree.get(&RPath::Index(1)).unwrap_err();
    assert_eq!(err, SurrealResponseError::OutOfRange);

    let empty = SurrealQR(Value::Array(vec![]));
    let err = empty.get(&RPath::Index(0)).unwrap_err();
    assert_eq!(err, SurrealResponseError::OutOfRange);
}

#[test]
fn absent_propagates_through_any_path() {
    let tree = SurrealQR(Value::Absent);
    let out = tree.get(&RPath::Field("anything")).unwrap();
    assert_eq!(out.0, Value::Absent);
    let tree = SurrealQR(Value::Absent);
    let out = tree.get(&RPath::Index(4)).unwrap();
    assert_eq!(out.0, Value::Absent);
    let tree = SurrealQR(Value::Absent);
    let out = tree
        .get(&RPath::Chain(vec![RPath::Field("a"), RPath::Index(0)]))
        .unwrap();
    assert_eq!(out.0, Value::Absent);
}

#[test]
fn missing_field_reads_as_absent() {
    let tree = SurrealQR(object(vec![entry("a", whole(1))]));
    let out = tree.get(&RPath::Field("b")).unwrap();
    assert_eq!(out.0, Value::Absent);
}

#[test]
fn index_on_non_array_is_array_error() {
    let tree = SurrealQR(whole(3));
    let err = tree.get(&RPath::Index(0)).unwrap_err();
    assert_eq!(err, SurrealResponseError::ExpectedAnArray);
}

#[test]
fn field_on_null_is_object_error() {
    let tree = SurrealQR(Value::Null);
    let err = tree.get(&RPath::Field("a")).unwrap_err();
    assert_eq!(err, SurrealResponseError::ExpectedAnObject);
}

#[test]
fn chain_walks_left_to_right() {
    let tree = SurrealQR(object(vec![entry(
        "rows",
        Value::Array(vec![object(vec![entry("n", whole(42))])]),
    )]));
    let path = RPath::from(RPath::Field("rows"))
        .get(RPath::Index(0))
        .get(RPath::Field("n"));
    let out = tree.get(&path).unwrap();
    assert_eq!(out.0, whole(42));
}

#[test]
fn nested_chain_is_flattened_by_evaluation() {
    let tree = SurrealQR(object(vec![entry("a", object(vec![entry("b", whole(9))]))]));
    let path = RPath::Chain(vec![
        RPath::Field("a"),
        RPath::Chain(vec![RPath::Field("b")]),
    ]);
    let out = tree.get(&path).unwrap();
    assert_eq!(out.0, whole(9));
}

#[test]
fn chain_error_stops_navigation() {
    let tree = SurrealQR(object(vec![entry("a", whole(1))]));
    let path = RPath::Chain(vec![RPath::Field("a"), RPath::Field("b")]);
    let err = tree.get(&path).unwrap_err();
    assert_eq!(err, SurrealResponseError::ExpectedAnObject);
}

#[test]
fn optional_hides_absent_and_null() {
    assert!(SurrealQR(Value::Absent).optional().is_none());
    assert!(SurrealQR(Value::Null).optional().is_none());
    let some = SurrealQR(whole(1)).optional().unwrap();
    assert_eq!(some.0, whole(1));
}

#[test]
fn select_picks_statement_result_by_index() {
    let response = vec![whole(1), whole(2)];
    let out = select(&response, &RPath::Index(1)).unwrap();
    assert_eq!(out.0, whole(2));
    let err = select(&response, &RPath::Index(2)).unwrap_err();
    assert_eq!(err, SurrealResponseError::OutOfRange);
}

#[test]
fn select_field_reads_first_result() {
    let response = vec![object(vec![entry("a", whole(5))])];
    let out = select(&response, &RPath::Field("a")).unwrap();
    assert_eq!(out.0, whole(5));
}

#[test]
fn select_empty_chain_is_refused() {
    let response = vec![whole(1)];
    let err = select(&response, &RPath::Chain(vec![])).unwrap_err();
    assert_eq!(err, SurrealResponseError::UnexpectedValueType);
}

#[test]
fn select_chain_starts_with_statement_index() {
    let response = vec![whole(0), object(vec![entry("a", whole(8))])];
    let path = RPath::Chain(vec![RPath::Index(1), RPath::Field("a")]);
    let out = select(&response, &path).unwrap();
    assert_eq!(out.0, whole(8));
}

#[test]
fn select_vec_reads_members_in_order() {
    let response = vec![Value::Array(vec![whole(1), whole(2), whole(3)])];
    let out: Vec<i64> = select_vec(&response, &RPath::Index(0)).unwrap();
    assert_eq!(out, vec![1, 2, 3]);
}

#[test]
fn select_vec_missing_result_is_empty() {
    let response = vec![Value::Absent];
    let out: Vec<i64> = select_vec(&response, &RPath::Index(0)).unwrap();
    assert!(out.is_empty());
}

#[test]
fn select_vec_non_array_is_array_error() {
    let response = vec![whole(3)];
    let err = select_vec::<i64>(&response, &RPath::Index(0)).unwrap_err();
    assert_eq!(err, SurrealResponseError::ExpectedAnArray);
}

#[test]
fn select_optional_reads_value_or_nothing() {
    let response = vec![whole(7), Value::Null, Value::Array(vec![])];
    let some: Option<i64> = select_optional(&response, &RPath::Index(0)).unwrap();
    assert_eq!(some, Some(7));
    let none: Option<i64> = select_optional(&response, &RPath::Index(1)).unwrap();
    assert_eq!(none, None);
    let empty: Option<i64> = select_optional(&response, &RPath::Index(2)).unwrap();
    assert_eq!(empty, None);
}
