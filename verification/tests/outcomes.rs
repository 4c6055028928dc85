use datanymizer_engine::{Textual, TransformError, TransformResult, TransformResultHelper};

fn failure(field_name: &str, field_value: &str, reason: &str) -> TransformError {
    TransformError {
        field_name: field_name.to_string(),
        field_value: field_value.to_string(),
        reason: reason.to_string(),
    }
}

#[test]
fn present_carries_the_text() {
    assert_eq!(TransformResult::present("alice"), Ok(Some("alice".to_string())));
}

#[test]
fn present_writes_a_number_out() {
    assert_eq!(TransformResult::present(42), Ok(Some("42".to_string())));
}

#[test]
fn present_of_empty_text_is_not_absent() {
    let outcome = TransformResult::present("");
    assert_eq!(outcome, Ok(Some(String::new())));
    assert_ne!(outcome, Ok(None));
}

#[test]
fn present_takes_owned_and_borrowed_text() {
    let owned = String::from("bob");
    assert_eq!(TransformResult::present(&owned), Ok(Some("bob".to_string())));
    assert_eq!(TransformResult::present(owned.as_str()), Ok(Some("bob".to_string())));
    assert_eq!(TransformResult::present(owned), Ok(Some("bob".to_string())));
}

#[test]
fn present_writes_truth_values_out() {
    assert_eq!(TransformResult::present(true), Ok(Some("true".to_string())));
    assert_eq!(TransformResult::present(false), Ok(Some("false".to_string())));
}

#[test]
fn present_writes_negative_numbers_out() {
    assert_eq!(TransformResult::present(-17i64), Ok(Some("-17".to_string())));
    assert_eq!(TransformResult::present(0u8), Ok(Some("0".to_string())));
}

#[test]
fn error_carries_the_three_parts() {
    assert_eq!(
        TransformResult::error("email", "a@b", "invalid domain"),
        Err(failure("email", "a@b", "invalid domain"))
    );
}

#[test]
fn error_keeps_each_part_in_its_place() {
    match TransformResult::error("n", "v", "r") {
        Err(e) => {
            assert_eq!(e.field_name, "n");
            assert_eq!(e.field_value, "v");
            assert_eq!(e.reason, "r");
        }
        Ok(_) => panic!("an error was asked for"),
    }
}

#[test]
fn error_writes_numbers_out() {
    assert_eq!(TransformResult::error(1, 20, 300), Err(failure("1", "20", "300")));
}

#[test]
fn error_with_empty_parts_is_still_an_error() {
    assert_eq!(TransformResult::error("", "", ""), Err(failure("", "", "")));
}

#[test]
fn error_reads_as_the_reason_behind_the_lead() {
    match TransformResult::error("email", "a@b", "invalid domain") {
        Err(e) => assert_eq!(e.to_string(), "failed to transform field: invalid domain"),
        Ok(_) => panic!("an error was asked for"),
    }
}

#[test]
fn rendering_leaves_the_field_out() {
    let e = failure("secret_field", "secret_value", "because");
    let text = e.to_string();
    assert_eq!(text, "failed to transform field: because");
    assert!(!text.contains("secret_field"));
    assert!(!text.contains("secret_value"));
    assert!(!text.ends_with('\n'));
}

#[test]
fn rendering_of_an_empty_reason_is_the_bare_lead() {
    assert_eq!(failure("f", "v", "").to_string(), "failed to transform field: ");
}

#[test]
fn description_is_the_reason() {
    let e = failure("email", "a@b", "invalid domain");
    assert_eq!(e.description(), "invalid domain");
    assert_eq!(failure("", "", "").description(), "");
}

#[test]
fn equality_looks_at_all_three_parts() {
    let e = failure("a", "b", "c");
    assert_eq!(e, failure("a", "b", "c"));
    assert_ne!(e, failure("x", "b", "c"));
    assert_ne!(e, failure("a", "x", "c"));
    assert_ne!(e, failure("a", "b", "x"));
    assert_ne!(e, failure("b", "a", "c"));
    assert_eq!(failure("", "", ""), failure("", "", ""));
}

#[test]
fn clone_is_equal_and_independent() {
    let e = failure("a", "b", "c");
    let mut copy = e.clone();
    assert_eq!(copy, e);
    copy.reason.push('!');
    assert_ne!(copy, e);
    assert_eq!(e.reason, "c");
}

#[test]
fn from_reason_names_no_field() {
    let e = TransformError::from_reason("no such thing".to_string());
    assert_eq!(e, failure("", "", "no such thing"));
    assert_eq!(e.to_string(), "failed to transform field: no such thing");
}

#[test]
fn debug_shows_every_part() {
    let shown = format!("{:?}", failure("email", "a@b", "invalid domain"));
    assert!(shown.contains("email"));
    assert!(shown.contains("a@b"));
    assert!(shown.contains("invalid domain"));
}

#[test]
fn an_error_is_text_convertible_itself() {
    let e = failure("email", "a@b", "invalid domain");
    assert_eq!(e.to_text(), e.to_string());
    assert_eq!(
        TransformResult::present(&e),
        Ok(Some("failed to transform field: invalid domain".to_string()))
    );
}
