use tmc_cli::client::{RecordingIo, ScriptedClient};
use tmc_cli::data::{Config, Course, DownloadOutcome, Exercise, ExerciseIdent, Organization};
use tmc_cli::download::{
    course_titles, download_exercises, download_or_update, elevated_download,
    find_course_by_name, get_course_name, resolve_course, selection_to_course_name,
    DownloadCompletion,
};
use tmc_cli::error::CmdError;
use tmc_cli::organization::{organization, set_organization, set_organization_old};

fn course(id: u32, name: &str, title: &str) -> Course {
    Course { id, name: name.to_string(), title: title.to_string() }
}

fn org(name: &str, slug: &str, pinned: bool) -> Organization {
    Organization { name: name.to_string(), slug: slug.to_string(), pinned }
}

fn eligible_exercise(id: u32, slug: &str) -> Exercise {
    Exercise { id, slug: slug.to_string(), disabled: false, unlocked: true }
}

fn ok_client(test_mode: bool) -> ScriptedClient {
    ScriptedClient {
        organizations: vec![org("Alpha", "alpha", true), org("Beta", "beta", false)],
        courses: vec![course(1, "course-b", "Banana"), course(2, "course-a", "apple")],
        exercises: vec![eligible_exercise(11, "ex-1"), eligible_exercise(12, "ex-2")],
        download: Ok(DownloadOutcome::Success { downloaded: Vec::new(), skipped: Vec::new() }),
        test_mode,
    }
}

fn no_io() -> RecordingIo {
    RecordingIo::new(Vec::new(), Vec::new())
}

#[test]
fn download_in_test_mode_reports_the_fixed_success_line() {
    let mut client = ok_client(true);
    let c = course(1, "course-b", "Banana");
    let r = download_exercises(&"/dest".to_string(), &mut client, &c);
    assert_eq!(r.unwrap(), "Download was successful!");
}

#[test]
fn download_outside_test_mode_names_the_destination() {
    let mut client = ok_client(false);
    let c = course(1, "course-b", "Banana");
    let r = download_exercises(&"/dest".to_string(), &mut client, &c);
    assert_eq!(r.unwrap(), "Exercises downloaded successfully to /dest");
}

#[test]
fn download_propagates_a_transport_error_unchanged() {
    let mut client = ok_client(false);
    client.download = Err("connection reset".to_string());
    let c = course(1, "course-b", "Banana");
    match download_exercises(&"/dest".to_string(), &mut client, &c) {
        Err(CmdError::TransportError { message }) => assert_eq!(message, "connection reset"),
        _ => panic!("expected TransportError"),
    }
}

#[test]
fn download_with_nothing_eligible_fails_before_any_transfer() {
    let mut client = ok_client(false);
    client.exercises = vec![Exercise {
        id: 11,
        slug: "ex-1".to_string(),
        disabled: true,
        unlocked: true,
    }];
    let c = course(1, "course-b", "Banana");
    match download_exercises(&"/dest".to_string(), &mut client, &c) {
        Err(CmdError::NoEligibleExercises { course_title }) => assert_eq!(course_title, "Banana"),
        _ => panic!("expected NoEligibleExercises"),
    }
}

#[test]
fn download_failure_aggregates_one_report_with_partial_success_note() {
    let mut client = ok_client(false);
    client.download = Ok(DownloadOutcome::Failure {
        downloaded: vec![ExerciseIdent { id: 13, slug: "c".to_string() }],
        skipped: Vec::new(),
        failed: vec![tmc_cli::data::FailedExercise {
            ident: ExerciseIdent { id: 11, slug: "ex-1".to_string() },
            messages: vec!["server broke".to_string()],
        }],
    });
    let c = course(1, "course-b", "Banana");
    match download_exercises(&"/dest".to_string(), &mut client, &c) {
        Err(CmdError::PartialDownloadFailure { report }) => {
            assert_eq!(
                report,
                "\nFailed to download exercise: 'ex-1'\n    with message: 'server broke'\
\n\nSuccessful downloads saved to /dest"
            );
        }
        _ => panic!("expected PartialDownloadFailure"),
    }
}

#[test]
fn missing_organization_stops_the_download_command() {
    let mut io = no_io();
    let mut client = ok_client(true);
    let config = Config { organization: None };
    let r = download_or_update(&mut io, &mut client, &config, None, &"/dest".to_string(), false);
    assert!(matches!(r, Err(CmdError::OrganizationMissing)));
}

#[test]
fn interactive_selection_resolves_the_sorted_title_to_its_course() {
    let mut io = RecordingIo::new(Vec::new(), vec![Some("apple".to_string())]);
    let mut client = ok_client(true);
    let config = Config { organization: Some("alpha".to_string()) };
    let r = download_or_update(&mut io, &mut client, &config, None, &"/dest".to_string(), false);
    assert!(matches!(r, Ok(DownloadCompletion::Completed)));
    assert_eq!(io.printed[0], "Fetching courses...");
    assert_eq!(io.printed[io.printed.len() - 1], "\nDownload was successful!");
}

#[test]
fn explicit_course_name_matching_nothing_is_course_not_found() {
    let mut io = no_io();
    let mut client = ok_client(true);
    let config = Config { organization: Some("alpha".to_string()) };
    let name = "no-such-course".to_string();
    let r = download_or_update(
        &mut io,
        &mut client,
        &config,
        Some(&name),
        &"/dest".to_string(),
        false,
    );
    assert!(matches!(r, Err(CmdError::CourseNotFound)));
}

#[test]
fn permission_failure_on_the_elevation_platform_hands_off() {
    let mut io = no_io();
    let mut client = ok_client(false);
    client.download = Err("Failed to create file at C:\\dir".to_string());
    let config = Config { organization: Some("alpha".to_string()) };
    let name = "course-a".to_string();
    let r = download_or_update(
        &mut io,
        &mut client,
        &config,
        Some(&name),
        &"C:\\dest".to_string(),
        true,
    );
    match r {
        Ok(DownloadCompletion::ElevationRequired { state }) => {
            assert_eq!(state.path, "C:\\dest");
            assert_eq!(state.course, "course-a");
        }
        _ => panic!("expected ElevationRequired"),
    }
    assert_eq!(
        io.printed[io.printed.len() - 1],
        "Starting new cmd with administrator privileges..."
    );
}

#[test]
fn permission_failure_off_the_elevation_platform_is_surfaced() {
    let mut io = no_io();
    let mut client = ok_client(false);
    client.download = Err("Failed to create file at /dir".to_string());
    let config = Config { organization: Some("alpha".to_string()) };
    let name = "course-a".to_string();
    let r = download_or_update(
        &mut io,
        &mut client,
        &config,
        Some(&name),
        &"/dest".to_string(),
        false,
    );
    match r {
        Err(CmdError::TransportError { message }) => {
            assert_eq!(message, "Failed to create file at /dir");
        }
        _ => panic!("expected TransportError"),
    }
}

#[test]
fn elevated_resume_runs_the_identical_download_path() {
    let mut io = no_io();
    let mut client = ok_client(false);
    let r = elevated_download(&mut io, &mut client, "/dest;course-a");
    assert!(r.is_ok());
    assert_eq!(
        io.printed[io.printed.len() - 1],
        "Exercises downloaded successfully to /dest"
    );
}

#[test]
fn elevated_resume_rejects_a_malformed_handoff_line() {
    let mut io = no_io();
    let mut client = ok_client(false);
    assert!(matches!(
        elevated_download(&mut io, &mut client, "no separator"),
        Err(CmdError::HandoffCorrupt)
    ));
    assert!(matches!(
        elevated_download(&mut io, &mut client, "a;b;c"),
        Err(CmdError::HandoffCorrupt)
    ));
}

#[test]
fn course_lookup_is_case_sensitive_and_deterministic() {
    let courses = vec![
        course(1, "course-a", "A"),
        course(2, "course-b", "B"),
        course(3, "course-b", "B again"),
    ];
    let hit = find_course_by_name(&courses, "course-b").unwrap();
    assert_eq!(hit.id, 2);
    assert!(find_course_by_name(&courses, "Course-A").is_none());
    assert!(find_course_by_name(&courses, "course-c").is_none());
}

#[test]
fn resolving_a_name_fails_exactly_when_no_course_carries_it() {
    let courses = vec![course(1, "course-a", "A"), course(2, "course-b", "B")];
    let hit = resolve_course(&courses, "course-b").unwrap();
    assert_eq!(hit.id, 2);
    assert!(matches!(
        resolve_course(&courses, "course-c"),
        Err(CmdError::CourseNotFound)
    ));
    assert!(matches!(
        resolve_course(&Vec::new(), "course-a"),
        Err(CmdError::CourseNotFound)
    ));
}

#[test]
fn the_chooser_is_shown_every_title_in_order() {
    let courses = vec![course(1, "course-b", "Banana"), course(2, "course-a", "apple")];
    let titles = course_titles(&courses);
    assert_eq!(titles, vec!["Banana".to_string(), "apple".to_string()]);
}

#[test]
fn chooser_answers_map_to_their_selection_errors() {
    assert!(matches!(
        selection_to_course_name(None),
        Err(CmdError::SelectionCancelled)
    ));
    assert!(matches!(
        selection_to_course_name(Some(String::new())),
        Err(CmdError::SelectionEmpty)
    ));
    assert_eq!(selection_to_course_name(Some("T".to_string())).unwrap(), "T");
}

#[test]
fn course_chooser_failures_surface_as_io_errors() {
    let mut io = no_io();
    let r = get_course_name(&mut io, vec!["A".to_string()]);
    assert!(matches!(r, Err(CmdError::IoFailed { .. })));
    let mut io = RecordingIo::new(Vec::new(), vec![None]);
    let r = get_course_name(&mut io, vec!["A".to_string()]);
    assert!(matches!(r, Err(CmdError::SelectionCancelled)));
}

#[test]
fn old_organization_menu_prints_pinned_first_and_resolves_the_slug() {
    let mut io = RecordingIo::new(vec!["  beta \n".to_string()], Vec::new());
    let mut client = ok_client(false);
    let r = set_organization_old(&mut io, &mut client);
    let chosen = r.unwrap();
    assert_eq!(chosen.name, "Beta");
    assert_eq!(chosen.slug, "beta");
    assert_eq!(io.printed[0], "Available Organizations:");
    assert_eq!(io.printed[1], "");
    assert_eq!(io.printed[2], "Alpha");
    assert_eq!(io.printed[3], " Slug: ");
    assert_eq!(io.printed[4], "alpha");
    assert_eq!(io.printed[5], "----------");
    assert_eq!(io.printed[6], "Beta");
}

#[test]
fn old_organization_menu_rejects_an_unknown_slug() {
    let mut io = RecordingIo::new(vec!["zzz".to_string()], Vec::new());
    let mut client = ok_client(false);
    match set_organization_old(&mut io, &mut client) {
        Err(CmdError::OrganizationSlugNotFound { slug }) => assert_eq!(slug, "zzz"),
        _ => panic!("expected OrganizationSlugNotFound"),
    }
}

#[test]
fn organization_menu_serves_a_direct_pick() {
    let mut io = RecordingIo::new(Vec::new(), vec![Some("Alpha".to_string())]);
    let mut client = ok_client(false);
    let chosen = set_organization(&mut io, &mut client).unwrap();
    assert_eq!(chosen.slug, "alpha");
}

#[test]
fn organization_menu_opens_the_full_list_on_request() {
    let mut io = RecordingIo::new(
        Vec::new(),
        vec![Some("View all organizations".to_string()), Some("Beta".to_string())],
    );
    let mut client = ok_client(false);
    let chosen = set_organization(&mut io, &mut client).unwrap();
    assert_eq!(chosen.slug, "beta");
}

#[test]
fn organization_menu_maps_missing_answers_to_their_errors() {
    let mut io = RecordingIo::new(Vec::new(), vec![None]);
    let mut client = ok_client(false);
    assert!(matches!(
        set_organization(&mut io, &mut client),
        Err(CmdError::NoOrganizationChosen)
    ));
    let mut io = RecordingIo::new(Vec::new(), vec![Some("Zeta".to_string())]);
    let mut client = ok_client(false);
    assert!(matches!(
        set_organization(&mut io, &mut client),
        Err(CmdError::OrganizationNameNotFound)
    ));
}

#[test]
fn organization_command_announces_the_selection() {
    let mut io = RecordingIo::new(vec!["alpha".to_string()], Vec::new());
    let mut client = ok_client(false);
    let chosen = organization(&mut io, &mut client, false).unwrap();
    assert_eq!(chosen.name, "Alpha");
    assert_eq!(
        io.printed[io.printed.len() - 1],
        "Selected Alpha as organization."
    );
    let mut io = RecordingIo::new(Vec::new(), vec![Some("Beta".to_string())]);
    let mut client = ok_client(false);
    let chosen = organization(&mut io, &mut client, true).unwrap();
    assert_eq!(chosen.name, "Beta");
}
