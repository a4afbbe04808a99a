use orion_store::validation::{id_fault_given, IdFault, MessageToSave};

fn message(id: &str, created_at: &str) -> MessageToSave {
    MessageToSave {
        id: id.to_string(),
        role: "user".to_string(),
        content: "test".to_string(),
        tool_calls: None,
        tool_results: None,
        created_at: created_at.to_string(),
    }
}

#[test]
fn id_of_exactly_max_length_is_accepted() {
    let msg = message(&"x".repeat(128), "2026-01-27T12:00:00Z");
    assert!(msg.validate_id().is_ok());
}

#[test]
fn id_length_counts_characters() {
    let msg = message(&"é".repeat(100), "2026-01-27T12:00:00Z");
    assert!(msg.validate_id().is_ok());
}

#[test]
fn single_character_id_is_accepted() {
    assert!(message("a", "2026-01-27T12:00:00Z").validate_id().is_ok());
}

#[test]
fn underscore_pair_is_adjacent_separators() {
    assert_eq!(
        message("a__b", "2026-01-27T12:00:00Z").validate_id().unwrap_err(),
        "Message ID cannot have consecutive special characters"
    );
}

#[test]
fn invalid_character_reported_before_adjacent_separators() {
    assert_eq!(
        message("a--b<c", "2026-01-27T12:00:00Z").validate_id().unwrap_err(),
        "Message ID contains invalid characters"
    );
}

#[test]
fn id_fault_from_given_answers() {
    let flags = |s: &str| s.chars().map(|c| c.is_alphanumeric()).collect::<Vec<bool>>();
    assert_eq!(id_fault_given("a--b<c", &flags("a--b<c")), Some(IdFault::InvalidCharacter));
    assert_eq!(id_fault_given("a-_b", &flags("a-_b")), Some(IdFault::AdjacentSeparators));
    assert_eq!(id_fault_given("a-b_c", &flags("a-b_c")), None);
    assert_eq!(id_fault_given("", &Vec::new()), Some(IdFault::Empty));
    assert_eq!(id_fault_given("ab", &vec![false, true]), Some(IdFault::BadStart));
    assert_eq!(id_fault_given("ab", &vec![true, false]), Some(IdFault::BadEnd));
    assert_eq!(id_fault_given("a?b", &vec![true, true, true]), None);
    assert_eq!(id_fault_given(&"x".repeat(129), &vec![true; 129]), Some(IdFault::TooLong));
}

#[test]
fn slash_is_an_invalid_character() {
    assert_eq!(
        message("a/../b", "2026-01-27T12:00:00Z").validate_id().unwrap_err(),
        "Message ID contains invalid characters"
    );
}

#[test]
fn timestamp_too_short() {
    assert_eq!(
        message("m1", "2026-01-27T12:00:0").validate_timestamp().unwrap_err(),
        "Timestamp format invalid (too short)"
    );
}

#[test]
fn timestamp_bad_layout() {
    assert_eq!(
        message("m1", "2026/01/27T12:00:00Z").validate_timestamp().unwrap_err(),
        "Timestamp format invalid (expected ISO 8601)"
    );
    assert_eq!(
        message("m1", "Jan 27 2026 12:00:00").validate_timestamp().unwrap_err(),
        "Timestamp format invalid (expected ISO 8601)"
    );
}

#[test]
fn timestamp_non_numeric_fields() {
    let cases = [
        ("20X6-01-27T12:00:00Z", "Invalid timestamp: year must be numeric"),
        ("2026-01-2XT12:00:00Z", "Invalid timestamp: day must be numeric"),
        ("2026-01-27T1X:00:00Z", "Invalid timestamp: hour must be numeric"),
        ("2026-01-27T12:X0:00Z", "Invalid timestamp: minute must be numeric"),
        ("2026-01-27T12:00:-1Z", "Invalid timestamp: second must be numeric"),
    ];
    for (ts, expected) in cases {
        assert_eq!(message("m1", ts).validate_timestamp().unwrap_err(), expected);
    }
}

#[test]
fn timestamp_day_zero_rejected() {
    assert_eq!(
        message("m1", "2026-01-00T12:00:00Z").validate_timestamp().unwrap_err(),
        "Invalid timestamp: day must be 1-31"
    );
}

#[test]
fn timestamp_day_31_accepted_in_any_month() {
    assert!(message("m1", "2026-02-31T00:00:00Z").validate_timestamp().is_ok());
}

#[test]
fn timestamp_field_with_plus_sign_reads_as_number() {
    assert!(message("m1", "2026-+1-27T12:00:00Z").validate_timestamp().is_ok());
}

#[test]
fn timestamp_lower_bounds_accepted() {
    assert!(message("m1", "0000-01-01T00:00:00").validate_timestamp().is_ok());
}

#[test]
fn validate_reports_id_before_timestamp() {
    assert_eq!(message("", "bad").validate().unwrap_err(), "Message ID cannot be empty");
    assert_eq!(
        message("m1", "2026-13-01T00:00:00Z").validate().unwrap_err(),
        "Invalid timestamp: month must be 1-12"
    );
}
