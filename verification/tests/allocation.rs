use hypergrab::allocator::{allocate, make_candidate};
use hypergrab::executor::join_path;
use hypergrab::text::{file_name_of, sanitize, trim};

#[test]
fn allocate_is_idempotent_on_unchanged_directory() {
    let existing: Vec<String> = Vec::new();
    let first = allocate(&existing, "TC-01");
    let second = allocate(&existing, "TC-01");
    assert_eq!(first, "TC_01.png");
    assert_eq!(first, second);
}

#[test]
fn allocate_steps_past_existing_files() {
    let existing = vec!["TC_01.png".to_string()];
    assert_eq!(allocate(&existing, "TC-01"), "TC_01_1.png");
    let existing = vec!["TC_01.png".to_string(), "TC_01_1.png".to_string()];
    assert_eq!(allocate(&existing, "TC-01"), "TC_01_2.png");
}

#[test]
fn allocate_ignores_unrelated_files() {
    let existing = vec!["other.png".to_string(), "notes.txt".to_string()];
    assert_eq!(allocate(&existing, "TC-01"), "TC_01.png");
}

#[test]
fn allocate_reaches_two_digit_suffixes() {
    let mut existing = vec!["TC.png".to_string()];
    for i in 1..10 {
        existing.push(format!("TC_{}.png", i));
    }
    assert_eq!(allocate(&existing, "TC"), "TC_10.png");
}

#[test]
fn allocate_sanitizes_the_identifier() {
    let existing: Vec<String> = Vec::new();
    assert_eq!(allocate(&existing, "TC/01:A"), "TC_01_A.png");
}

#[test]
fn sanitize_replaces_every_non_alphanumeric() {
    assert_eq!(sanitize("TC/01:A"), "TC_01_A");
    assert_eq!(sanitize("TC-01"), "TC_01");
    assert_eq!(sanitize("TC01"), "TC01");
}

#[test]
fn sanitize_empty_falls_back_to_placeholder() {
    assert_eq!(sanitize(""), "_");
}

#[test]
fn sanitize_keeps_unicode_letters() {
    assert_eq!(sanitize("Tê-st"), "Tê_st");
}

#[test]
fn trim_strips_tabs_and_newlines() {
    assert_eq!(trim("\tTC-01\n"), "TC-01");
}

#[test]
fn make_candidate_renders_suffixes() {
    let stem = "TC_01".to_string();
    assert_eq!(make_candidate(&stem, 0), "TC_01.png");
    assert_eq!(make_candidate(&stem, 1), "TC_01_1.png");
    assert_eq!(make_candidate(&stem, 12), "TC_01_12.png");
}

#[test]
fn join_path_inserts_separator() {
    assert_eq!(join_path("/data", "TC-01.png"), "/data/TC-01.png");
}

#[test]
fn file_name_of_takes_last_component() {
    assert_eq!(file_name_of("/data/evidence/TC-07.png"), "TC-07.png");
    assert_eq!(file_name_of("TC-07.png"), "TC-07.png");
    assert_eq!(file_name_of(""), "");
    assert_eq!(file_name_of("/data/"), "");
}

#[test]
fn trim_strips_both_ends_only() {
    assert_eq!(trim("  TC-01  "), "TC-01");
    assert_eq!(trim("TC 01"), "TC 01");
    assert_eq!(trim("   "), "");
    assert_eq!(trim(""), "");
}
