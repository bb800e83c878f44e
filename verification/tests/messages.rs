use path_anyhow::chain::{failure, nested_failure};
use path_anyhow::context::{
    copying_context, hard_linking_context, processing_path_context, renaming_context,
    with_prefix_context, with_readonly_permission_context,
};
use path_anyhow::{
    describe, PathAnyhow, EXPECTED_PARENT, INVALID_UTF8, MISSING_EXTENSION, MISSING_FILENAME,
};
use std::path::Path;

fn links_of(error: &anyhow::Error) -> Vec<String> {
    error.chain().map(|link| link.to_string()).collect()
}

#[test]
fn causes_are_spelled_exactly() {
    assert_eq!(INVALID_UTF8, "invalid UTF8");
    assert_eq!(EXPECTED_PARENT, "expected parent directory");
    assert_eq!(MISSING_FILENAME, "missing expected filename");
    assert_eq!(MISSING_EXTENSION, "missing expected extension");
}

#[test]
fn contexts_are_spelled_exactly() {
    assert_eq!(processing_path_context("\"/foo\""), "while processing path \"/foo\"");
    assert_eq!(with_prefix_context("\"/bananas\""), "with prefix \"/bananas\"");
    assert_eq!(copying_context("\"a\"", "\"b\""), "while copying \"a\" to \"b\"");
    assert_eq!(
        hard_linking_context("\"a\"", "\"b\""),
        "while hard-linking \"a\" to \"b\""
    );
    assert_eq!(renaming_context("\"a\"", "\"b\""), "while renaming \"a\" to \"b\"");
    assert_eq!(
        with_readonly_permission_context(true),
        "with readonly permission true"
    );
    assert_eq!(
        with_readonly_permission_context(false),
        "with readonly permission false"
    );
}

#[test]
fn contexts_of_empty_paths_keep_their_words() {
    assert_eq!(processing_path_context(""), "while processing path ");
    assert_eq!(with_prefix_context(""), "with prefix ");
    assert_eq!(copying_context("", ""), "while copying  to ");
}

#[test]
fn failure_puts_the_context_before_the_cause() {
    let error = failure("cause".to_string(), "context".to_string());
    assert_eq!(links_of(&error), vec!["context", "cause"]);
    assert_eq!(format!("{}", error), "context");
    assert_eq!(format!("{:#}", error), "context: cause");
}

#[test]
fn nested_failure_puts_the_outer_context_first() {
    let error = nested_failure(
        "cause".to_string(),
        "inner".to_string(),
        "outer".to_string(),
    );
    assert_eq!(links_of(&error), vec!["outer", "inner", "cause"]);
    assert_eq!(format!("{:#}", error), "outer: inner: cause");
}

#[test]
fn describe_joins_the_chain_with_colons() {
    let error = nested_failure("c".to_string(), "b".to_string(), "a".to_string());
    assert_eq!(describe(&error), "a: b: c");
    let error = failure("b".to_string(), "a".to_string());
    assert_eq!(describe(&error), "a: b");
    assert_eq!(describe(&anyhow::Error::msg("alone")), "alone");
}

#[test]
fn describe_keeps_empty_and_odd_messages() {
    let error = failure(String::new(), String::new());
    assert_eq!(describe(&error), ": ");
    let error = failure("x: y".to_string(), "two\nlines".to_string());
    assert_eq!(describe(&error), "two\nlines: x: y");
}

#[test]
fn describe_agrees_with_the_alternate_display() {
    let errors = vec![
        Path::new("/").parent_anyhow().err().unwrap(),
        Path::new("/foo/bar")
            .strip_prefix_anyhow(Path::new("/quz"))
            .err()
            .unwrap(),
        Path::new("x")
            .set_readonly_anyhow(false, Err("denied".to_string()))
            .err()
            .unwrap(),
        anyhow::Error::msg("root").context("middle").context("top"),
        anyhow::Error::new(std::io::Error::from_raw_os_error(2)).context("outermost"),
    ];
    for error in errors {
        assert_eq!(describe(&error), format!("{:#}", error));
        assert!(!describe(&error).ends_with('\n'));
    }
}

#[test]
fn a_description_quotes_the_path_and_ends_with_the_cause() {
    let path = Path::new("/this/path/should/not/exist");
    let error = path
        .remove_file_anyhow(Err("No such file or directory (os error 2)".to_string()))
        .err()
        .unwrap();
    let text = describe(&error);
    assert!(text.starts_with("while processing path "));
    assert!(text.contains("\"/this/path/should/not/exist\""));
    assert!(text.ends_with("No such file or directory (os error 2)"));
}
