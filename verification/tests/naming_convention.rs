use surreal_ql::naming_convention::camel_to_snake_case;
use surreal_ql::naming_convention::snake_case_to_camel;

#[test]
fn test_snake_case_to_camel() {
    assert_eq!(snake_case_to_camel("hello_world"), "helloWorld");
    assert_eq!(snake_case_to_camel("another_example"), "anotherExample");
    assert_eq!(snake_case_to_camel("single"), "single");
    assert_eq!(snake_case_to_camel(""), "");
}

#[test]
fn test_camel_to_snake_case() {
    assert_eq!(camel_to_snake_case("HelloWorld"), "hello_world");
    assert_eq!(camel_to_snake_case("AnotherExample"), "another_example");
    assert_eq!(camel_to_snake_case("Single"), "single");
    assert_eq!(camel_to_snake_case(""), "");
    assert_eq!(camel_to_snake_case("camelCase"), "camel_case");
}

#[test]
fn snake_to_camel_keeps_leading_underscore_word() {
    assert_eq!(snake_case_to_camel("_leading"), "Leading");
    assert_eq!(snake_case_to_camel("a__b"), "aB");
    assert_eq!(snake_case_to_camel("trailing_"), "trailing");
}

#[test]
fn camel_to_snake_handles_runs_of_capitals() {
    assert_eq!(camel_to_snake_case("ABC"), "a_b_c");
    assert_eq!(camel_to_snake_case("xY"), "x_y");
}
