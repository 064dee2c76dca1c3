use codex_acp::agent::{
    distinct_session_title, merge_kodex_developer_instructions,
    KODEX_ENGINEERING_DEVELOPER_RULES, KODEX_FILE_EDITING_DEVELOPER_INSTRUCTIONS,
};

#[test]
fn distinct_session_title_ignores_first_user_message() {
    assert_eq!(
        distinct_session_title("  Fix the parser  ", Some("Fix the parser")),
        None
    );
}

#[test]
fn distinct_session_title_keeps_saved_title() {
    assert_eq!(
        distinct_session_title("Parser cleanup", Some("Fix the parser")),
        Some("Parser cleanup".to_string())
    );
}

#[test]
fn kodex_developer_instructions_are_added_when_missing() {
    let merged = merge_kodex_developer_instructions(None).expect("instructions");

    assert!(merged.contains(KODEX_FILE_EDITING_DEVELOPER_INSTRUCTIONS));
    assert!(merged.contains(KODEX_ENGINEERING_DEVELOPER_RULES));
    assert!(merged.contains("Do not guess APIs; consult the documentation first."));
}

#[test]
fn kodex_developer_instructions_preserve_existing_text() {
    let merged = merge_kodex_developer_instructions(Some("Existing rule.".to_string()))
        .expect("instructions");

    assert!(merged.starts_with("Existing rule.\n\n"));
    assert!(merged.contains(KODEX_FILE_EDITING_DEVELOPER_INSTRUCTIONS));
    assert!(merged.contains(KODEX_ENGINEERING_DEVELOPER_RULES));
}

#[test]
fn kodex_developer_instructions_are_not_duplicated() {
    let existing = format!(
        "Existing rule.\n\n{}\n\n{}",
        KODEX_FILE_EDITING_DEVELOPER_INSTRUCTIONS, KODEX_ENGINEERING_DEVELOPER_RULES
    );

    let merged = merge_kodex_developer_instructions(Some(existing.clone())).expect("instructions");

    assert_eq!(merged, existing);
}
