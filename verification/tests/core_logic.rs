use tmc_cli::data::{Course, DownloadOutcome, Exercise, ExerciseIdent, FailedExercise, HandoffState, Organization};
use tmc_cli::error::CmdError;
use tmc_cli::exercises::{build_exercise_set, eligible_exercises};
use tmc_cli::handoff::{encode_handoff, is_file_creation_permission_error, parse_handoff, should_elevate};
use tmc_cli::report::{build_failure_report, handle_download_result};
use tmc_cli::sorting::{sort_courses, sort_organizations};
use tmc_cli::text::{str_contains, str_eq, str_lex_le};

fn exercise(id: u32, slug: &str, disabled: bool, unlocked: bool) -> Exercise {
    Exercise { id, slug: slug.to_string(), disabled, unlocked }
}

fn course(id: u32, name: &str, title: &str) -> Course {
    Course { id, name: name.to_string(), title: title.to_string() }
}

fn org(name: &str, slug: &str, pinned: bool) -> Organization {
    Organization { name: name.to_string(), slug: slug.to_string(), pinned }
}

#[test]
fn eligible_set_keeps_exactly_the_enabled_unlocked_entries_in_order() {
    let exercises = vec![
        exercise(1, "a", false, true),
        exercise(2, "b", true, true),
        exercise(3, "c", false, false),
        exercise(4, "d", false, true),
        exercise(5, "e", true, false),
        exercise(6, "f", false, true),
    ];
    assert_eq!(eligible_exercises(&exercises), vec![1, 4, 6]);
}

#[test]
fn eligible_set_of_empty_list_is_empty() {
    assert_eq!(eligible_exercises(&Vec::new()), Vec::<u32>::new());
}

#[test]
fn all_disabled_list_fails_with_no_eligible_exercises_naming_the_title() {
    let exercises = vec![exercise(1, "a", true, true), exercise(2, "b", true, true)];
    let r = build_exercise_set(&"My Course".to_string(), &exercises);
    match r {
        Err(CmdError::NoEligibleExercises { course_title }) => {
            assert_eq!(course_title, "My Course");
        }
        other => panic!("expected NoEligibleExercises, got {:?}", other.is_ok()),
    }
    let r = build_exercise_set(&"My Course".to_string(), &Vec::new());
    assert!(matches!(r, Err(CmdError::NoEligibleExercises { .. })));
}

#[test]
fn all_locked_list_fails_with_no_eligible_exercises() {
    let exercises = vec![exercise(1, "a", false, false), exercise(2, "b", false, false)];
    let r = build_exercise_set(&"Locked".to_string(), &exercises);
    match r {
        Err(e) => assert_eq!(e.message(), "No valid exercises found for course 'Locked'"),
        Ok(_) => panic!("expected an error"),
    }
}

fn failed(id: u32, slug: &str, messages: &[&str]) -> FailedExercise {
    FailedExercise {
        ident: ExerciseIdent { id, slug: slug.to_string() },
        messages: messages.iter().map(|m| m.to_string()).collect(),
    }
}

#[test]
fn report_lists_failures_in_order_and_ends_with_the_success_note() {
    let fs = vec![failed(1, "e1-slug", &["e1"]), failed(2, "e2-slug", &["e2", "e3"])];
    let report = build_failure_report(&fs, true, "/tmp/course");
    let expected = "\nFailed to download exercise: 'e1-slug'\n    with message: 'e1'\
\nFailed to download exercise: 'e2-slug'\n    with message: 'e2'\n    with message: 'e3'\
\n\nSuccessful downloads saved to /tmp/course";
    assert_eq!(report, expected);
}

#[test]
fn report_with_nothing_downloaded_has_no_trailing_note() {
    let fs = vec![failed(1, "e1-slug", &["boom"])];
    let report = build_failure_report(&fs, false, "/tmp/course");
    assert_eq!(report, "\nFailed to download exercise: 'e1-slug'\n    with message: 'boom'");
    assert!(!report.contains("Successful downloads saved to"));
}

#[test]
fn success_outcome_in_test_mode_yields_the_fixed_string() {
    let outcome = DownloadOutcome::Success { downloaded: Vec::new(), skipped: Vec::new() };
    let r = handle_download_result(&outcome, true, "/tmp/course");
    assert_eq!(r.unwrap(), "Download was successful!");
}

#[test]
fn success_outcome_outside_test_mode_names_the_destination() {
    let outcome = DownloadOutcome::Success { downloaded: Vec::new(), skipped: Vec::new() };
    let r = handle_download_result(&outcome, false, "/tmp/course");
    assert_eq!(r.unwrap(), "Exercises downloaded successfully to /tmp/course");
}

#[test]
fn failure_outcome_becomes_one_partial_download_failure() {
    let outcome = DownloadOutcome::Failure {
        downloaded: vec![ExerciseIdent { id: 9, slug: "c".to_string() }],
        skipped: Vec::new(),
        failed: vec![failed(1, "a", &["e1"]), failed(2, "b", &["e2", "e3"])],
    };
    let r = handle_download_result(&outcome, false, "/tmp/dest");
    match r {
        Err(CmdError::PartialDownloadFailure { report }) => {
            let expected = "\nFailed to download exercise: 'a'\n    with message: 'e1'\
\nFailed to download exercise: 'b'\n    with message: 'e2'\n    with message: 'e3'\
\n\nSuccessful downloads saved to /tmp/dest";
            assert_eq!(report, expected);
        }
        _ => panic!("expected PartialDownloadFailure"),
    }
}

#[test]
fn handoff_round_trip_returns_exactly_the_written_fields() {
    let state = HandoffState { path: "C:\\Users\\me\\tmc".to_string(), course: "X".to_string() };
    let line = encode_handoff(&state);
    assert_eq!(line, "C:\\Users\\me\\tmc;X");
    let back = parse_handoff(&line).unwrap();
    assert_eq!(back.path, "C:\\Users\\me\\tmc");
    assert_eq!(back.course, "X");
}

#[test]
fn handoff_line_with_one_field_is_corrupt() {
    assert!(matches!(parse_handoff("only-one-field"), Err(CmdError::HandoffCorrupt)));
    assert!(matches!(parse_handoff(""), Err(CmdError::HandoffCorrupt)));
}

#[test]
fn handoff_line_with_three_fields_is_corrupt() {
    assert!(matches!(parse_handoff("a;b;c"), Err(CmdError::HandoffCorrupt)));
}

#[test]
fn handoff_fields_holding_the_separator_do_not_round_trip() {
    let state = HandoffState { path: "a;b".to_string(), course: "X".to_string() };
    let line = encode_handoff(&state);
    assert!(matches!(parse_handoff(&line), Err(CmdError::HandoffCorrupt)));
}

#[test]
fn handoff_empty_fields_round_trip() {
    let back = parse_handoff(";").unwrap();
    assert_eq!(back.path, "");
    assert_eq!(back.course, "");
}

#[test]
fn permission_failure_is_recognized_only_with_the_marker() {
    assert!(is_file_creation_permission_error(
        "tmc-langs failed: Failed to create file at C:\\dir"
    ));
    assert!(is_file_creation_permission_error("Failed to create file"));
    assert!(!is_file_creation_permission_error("Failed to create fil"));
    assert!(!is_file_creation_permission_error("permission denied"));
    assert!(!is_file_creation_permission_error(""));
}

#[test]
fn elevation_needs_both_the_platform_and_the_marker() {
    let err = CmdError::TransportError { message: "Failed to create file x".to_string() };
    assert!(should_elevate(true, &err));
    assert!(!should_elevate(false, &err));
    let other = CmdError::TransportError { message: "connection reset".to_string() };
    assert!(!should_elevate(true, &other));
    let partial = CmdError::PartialDownloadFailure {
        report: "\nFailed to download exercise: 'a'\n    with message: 'Failed to create file b'"
            .to_string(),
    };
    assert!(should_elevate(true, &partial));
}

#[test]
fn substring_search_handles_edges() {
    assert!(str_contains("abc", ""));
    assert!(str_contains("", ""));
    assert!(!str_contains("", "a"));
    assert!(str_contains("abcabc", "cab"));
    assert!(!str_contains("abcabc", "cba"));
    assert!(str_contains("abc", "abc"));
}

#[test]
fn string_equality_and_order_are_character_wise() {
    assert!(str_eq("", ""));
    assert!(str_eq("abc", "abc"));
    assert!(!str_eq("abc", "abd"));
    assert!(!str_eq("abc", "ab"));
    assert!(str_lex_le("", "a"));
    assert!(str_lex_le("ab", "ab"));
    assert!(str_lex_le("ab", "b"));
    assert!(!str_lex_le("b", "ab"));
    assert!(str_lex_le("ab", "abc"));
    assert!(!str_lex_le("abc", "ab"));
}

#[test]
fn courses_sort_case_insensitively_by_title() {
    let courses = vec![course(1, "banana", "Banana"), course(2, "apple", "apple")];
    let sorted = sort_courses(&courses);
    assert_eq!(sorted[0].title, "apple");
    assert_eq!(sorted[1].title, "Banana");
}

#[test]
fn organizations_sort_pinned_first_then_by_name() {
    let orgs = vec![org("beta", "b", false), org("alpha", "a", true), org("gamma", "g", true)];
    let asc = sort_organizations(&orgs, false);
    assert_eq!(asc[0].name, "alpha");
    assert_eq!(asc[1].name, "gamma");
    assert_eq!(asc[2].name, "beta");
    let desc = sort_organizations(&orgs, true);
    assert_eq!(desc[0].name, "gamma");
    assert_eq!(desc[1].name, "alpha");
    assert_eq!(desc[2].name, "beta");
}

#[test]
fn error_messages_match_the_surfaced_texts() {
    assert_eq!(
        CmdError::OrganizationMissing.message(),
        "No organization found. Run 'tmc organization' first."
    );
    assert_eq!(CmdError::CourseNotFound.message(), "Could not find course with that name");
    assert_eq!(CmdError::SelectionCancelled.message(), "Course selection was interrupted");
    assert_eq!(
        CmdError::SelectionEmpty.message(),
        "Could not find a course by the given title"
    );
    assert_eq!(
        CmdError::NoOrganizationChosen.message(),
        "No organization chosen"
    );
    assert_eq!(
        CmdError::OrganizationSlugNotFound { slug: "x".to_string() }.message(),
        "No such organization for the given slug: x"
    );
    assert_eq!(
        CmdError::OrganizationNameNotFound.message(),
        "Something strange happened"
    );
    assert_eq!(
        CmdError::TransportError { message: "boom".to_string() }.message(),
        "boom"
    );
}
