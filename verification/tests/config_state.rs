use surreal_ql::config::SurrealDeriveConfig;
use surreal_ql::macro_state::Content;
use surreal_ql::macro_state::State;
use surreal_ql::macro_state::Trace;

#[test]
fn config_defaults_match_the_documented_values() {
    let c = SurrealDeriveConfig::default();
    assert!(!c.use_camel_case);
    assert!(!c.enable_log);
    assert!(!c.enable_compile_log);
    assert_eq!(c.namespace, "surreal-ql");
    assert_eq!(c.info_log_macro, "println");
}

#[test]
fn config_overrides_take_precedence() {
    let c = SurrealDeriveConfig::from_overrides(
        Some(true),
        Some(true),
        None,
        Some("app".to_string()),
        None,
    );
    assert!(c.enable_log);
    assert!(c.use_camel_case);
    assert!(!c.enable_compile_log);
    assert_eq!(c.namespace, "app");
    assert_eq!(c.info_log_macro, "println");
}

#[test]
fn bracket_trace_consumes_only_a_closing_parenthesis() {
    let t = Trace::BRACKET(3);
    assert!(t.consume(&')'));
    assert!(!t.consume(&' '));
    assert!(!t.consume(&'x'));
}

#[test]
fn naked_trace_consumes_only_a_space() {
    let t = Trace::NAKED(0);
    assert!(t.consume(&' '));
    assert!(!t.consume(&')'));
}

#[test]
fn content_collects_text_from_its_start() {
    let mut c = Content::new("ab".to_string(), 4);
    assert_eq!(c.start, 4);
    assert!(c.end.is_none());
    c.merge_content("cd".to_string());
    assert_eq!(c.value, "abcd");
    assert_eq!(c.start, 4);
}

#[test]
fn scanner_states_start_empty() {
    match State::normal() {
        State::NORMAL { block_traces } => assert!(block_traces.is_empty()),
        _ => panic!("expected the plain-text state"),
    }
    match State::matching(7, vec![Trace::BRACKET(1)], None) {
        State::MATCHING {
            current,
            block_traces,
            content_traces,
        } => {
            assert_eq!(current.value, "");
            assert_eq!(current.start, 7);
            assert_eq!(block_traces.len(), 1);
            assert!(content_traces.is_empty());
        }
        _ => panic!("expected the collecting state"),
    }
    let given = Content::new("x".to_string(), 2);
    match State::matching(9, vec![], Some(given)) {
        State::MATCHING { current, .. } => {
            assert_eq!(current.value, "x");
            assert_eq!(current.start, 2);
        }
        _ => panic!("expected the collecting state"),
    }
}
