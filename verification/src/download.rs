//! Course resolution and the download orchestration: building the eligible
//! set, supervising the progress reporter around the bulk download, and
//! classifying the outcome, including the privilege-escalation handoff.

use vstd::prelude::*;
use vstd::string::*;
use crate::client::{Client, Io};
use crate::data::{clone_course, Config, Course, HandoffState, PrintColor};
use crate::error::CmdError;
use crate::exercises::{build_exercise_set, eligible_ids};
use crate::handoff::{parse_handoff, permission_marker, should_elevate, well_formed_handoff};
use crate::text::contains_seq;
use crate::progress::ProgressReporter;
use crate::report::{handle_download_result, success_message, test_success_message};
use crate::sorting::sort_courses;

verus! {

/// How an invocation of the download command ended when it did not fail: the
/// download completed here, or the operation was handed off to a relaunched
/// elevated process that resumes it from the persisted state.
pub enum DownloadCompletion {
    Completed,
    ElevationRequired { state: HandoffState },
}

/// The first course carrying the name stands at `i`, case-sensitively.
pub open spec fn first_course_with_name(courses: Seq<Course>, name: Seq<char>, i: int) -> bool {
    0 <= i < courses.len() && courses[i].name@ == name && forall|k: int|
        0 <= k < i ==> courses[k].name@ != name
}

/// The first course carrying the title stands at `i`, case-sensitively.
pub open spec fn first_course_with_title(courses: Seq<Course>, title: Seq<char>, i: int) -> bool {
    0 <= i < courses.len() && courses[i].title@ == title && forall|k: int|
        0 <= k < i ==> courses[k].title@ != title
}

/// Looks a course up by its name, case-sensitively, returning the first
/// match.
pub fn find_course_by_name(courses: &Vec<Course>, name: &str) -> (r: Option<Course>)
    ensures
        r matches Some(c) ==> exists|i: int|
            first_course_with_name(courses@, name@, i) && c == courses@[i],
        r matches None ==> forall|i: int| 0 <= i < courses@.len() ==> courses@[i].name@ != name@,
{
    let mut i: usize = 0;
    while i < courses.len()
        invariant
            i <= courses@.len(),
            forall|k: int| 0 <= k < i ==> courses@[k].name@ != name@,
        decreases courses@.len() - i,
    {
        if crate::text::str_eq(courses[i].name.as_str(), name) {
            proof {
                assert(first_course_with_name(courses@, name@, i as int));
            }
            return Some(clone_course(&courses[i]));
        }
        i += 1;
    }
    None
}

/// Looks a course up by its title, case-sensitively, returning the first
/// match.
pub fn find_course_by_title(courses: &Vec<Course>, title: &str) -> (r: Option<Course>)
    ensures
        r matches Some(c) ==> exists|i: int|
            first_course_with_title(courses@, title@, i) && c == courses@[i],
        r matches None ==> forall|i: int| 0 <= i < courses@.len() ==> courses@[i].title@ != title@,
{
    let mut i: usize = 0;
    while i < courses.len()
        invariant
            i <= courses@.len(),
            forall|k: int| 0 <= k < i ==> courses@[k].title@ != title@,
        decreases courses@.len() - i,
    {
        if crate::text::str_eq(courses[i].title.as_str(), title) {
            proof {
                assert(first_course_with_title(courses@, title@, i as int));
            }
            return Some(clone_course(&courses[i]));
        }
        i += 1;
    }
    None
}

/// A name matched by exactly one course resolves to that course: the first
/// match is the only match.
pub proof fn lemma_course_lookup_deterministic(courses: Seq<Course>, name: Seq<char>, i: int, j: int)
    requires
        0 <= i < courses.len(),
        courses[i].name@ == name,
        forall|k: int| 0 <= k < courses.len() && k != i ==> courses[k].name@ != name,
        first_course_with_name(courses, name, j),
    ensures
        j == i,
{
}

/// Resolves a name against a course list: the first course carrying the
/// name, case-sensitively, and `CourseNotFound` exactly when no course does.
pub fn resolve_course(courses: &Vec<Course>, name: &str) -> (r: Result<Course, CmdError>)
    ensures
        r matches Ok(c) ==> exists|i: int|
            first_course_with_name(courses@, name@, i) && c == courses@[i],
        r matches Err(e) ==> e == CmdError::CourseNotFound && (forall|i: int|
            0 <= i < courses@.len() ==> courses@[i].name@ != name@),
        (exists|i: int| 0 <= i < courses@.len() && #[trigger] courses@[i].name@ == name@) <==> r
            is Ok,
{
    match find_course_by_name(courses, name) {
        Some(course) => Ok(course),
        None => Err(CmdError::CourseNotFound),
    }
}

/// Resolves a course by name through the client, failing with
/// `CourseNotFound` when no listed course carries the name.
pub fn get_course_by_name<C: Client>(client: &mut C, name: &str) -> (r: Result<Course, CmdError>)
    ensures
        r matches Err(e) ==> (e matches CmdError::TransportError { .. } || e
            == CmdError::CourseNotFound),
{
    let courses = match client.list_courses() {
        Ok(c) => c,
        Err(e) => {
            return Err(CmdError::TransportError { message: e });
        },
    };
    resolve_course(&courses, name)
}

/// The titles of the courses, in their relative order: exactly what the
/// interactive chooser is shown.
pub fn course_titles(courses: &Vec<Course>) -> (r: Vec<String>)
    ensures
        r@.len() == courses@.len(),
        forall|i: int| 0 <= i < courses@.len() ==> #[trigger] r@[i] == courses@[i].title,
{
    let mut out: Vec<String> = Vec::new();
    let mut i: usize = 0;
    while i < courses.len()
        invariant
            i <= courses@.len(),
            out@.len() == i,
            forall|k: int| 0 <= k < i ==> #[trigger] out@[k] == courses@[k].title,
        decreases courses@.len() - i,
    {
        out.push(courses[i].title.clone());
        i += 1;
    }
    out
}

/// Turns the chooser's answer into the selected course title: an interrupted
/// selection and an empty title are each their own terminal error.
pub fn selection_to_course_name(selection: Option<String>) -> (r: Result<String, CmdError>)
    ensures
        match selection {
            None => r matches Err(e) && e == CmdError::SelectionCancelled,
            Some(s) => if s@.len() == 0 {
                r matches Err(e) && e == CmdError::SelectionEmpty
            } else {
                r matches Ok(c) && c == s
            },
        },
{
    match selection {
        Some(course) => {
            if course.as_str().unicode_len() == 0 {
                Err(CmdError::SelectionEmpty)
            } else {
                Ok(course)
            }
        },
        None => Err(CmdError::SelectionCancelled),
    }
}

/// Presents the course titles to the interactive chooser and returns the
/// chosen title; the returned title is never empty.
pub fn get_course_name<I: Io>(io: &mut I, courses: Vec<String>) -> (r: Result<String, CmdError>)
    ensures
        r matches Ok(c) ==> c@.len() > 0,
        r matches Err(e) ==> (e == CmdError::SelectionCancelled || e == CmdError::SelectionEmpty
            || e matches CmdError::IoFailed { .. }),
{
    let selection = match io.pick("Select your course:", &courses) {
        Ok(s) => s,
        Err(e) => {
            return Err(CmdError::IoFailed { message: e });
        },
    };
    selection_to_course_name(selection)
}

/// Runs one bulk download for a resolved course: builds the eligible set,
/// supervises the progress reporter around the blocking download call, and
/// classifies the outcome. Any success message is one of the two fixed
/// success lines; the reporter is joined after a classified outcome and
/// force-joined after a hard error, never left running.
pub fn download_exercises<C: Client>(path: &String, client: &mut C, course: &Course) -> (r: Result<
    String,
    CmdError,
>)
    ensures
        r matches Ok(m) ==> (m@ == test_success_message() || m@ == success_message(path@)),
        r matches Err(e) ==> (e matches CmdError::TransportError { .. } || (e
            matches CmdError::NoEligibleExercises { course_title } && course_title@
            == course.title@) || e matches CmdError::PartialDownloadFailure { .. }),
{
    let exercises = match client.get_course_exercises(course.id) {
        Ok(ex) => ex,
        Err(e) => {
            return Err(CmdError::TransportError { message: e });
        },
    };
    let exercise_ids = match build_exercise_set(&course.title, &exercises) {
        Ok(ids) => ids,
        Err(e) => {
            proof {
                assert(eligible_ids(exercises@).len() == 0);
            }
            return Err(e);
        },
    };
    let mut reporter = ProgressReporter::new(client.is_test_mode());
    reporter.start();
    let result = client.download_or_update_exercises(&exercise_ids, path.as_str());
    match result {
        Ok(outcome) => {
            reporter.join();
            handle_download_result(&outcome, client.is_test_mode(), path.as_str())
        },
        Err(err) => {
            reporter.force_join();
            Err(CmdError::TransportError { message: err })
        },
    }
}

/// Downloads a course's exercises, resolving the course first: by its given
/// name, or interactively from the course titles, fetched in full detail and
/// sorted case-insensitively — the detail fetching belongs to the
/// interactive path alone. On the elevation platform, a download that failed
/// for want of file-creation permission is not surfaced: the operation is
/// handed off for an elevated relaunch.
pub fn download_or_update<I: Io, C: Client>(
    io: &mut I,
    client: &mut C,
    config: &Config,
    course_name: Option<&String>,
    dest_path: &String,
    on_windows: bool,
) -> (r: Result<DownloadCompletion, CmdError>)
    ensures
        config.organization matches None ==> (r matches Err(e) && e
            == CmdError::OrganizationMissing),
        r matches Err(CmdError::OrganizationMissing) ==> config.organization is None,
        r matches Ok(c) ==> (c matches DownloadCompletion::ElevationRequired { state }
            ==> on_windows && state.path@ == dest_path@),
        r matches Err(e) ==> (e matches CmdError::PartialDownloadFailure { report }
            ==> !(on_windows && contains_seq(report@, permission_marker()))),
{
    match &config.organization {
        None => {
            return Err(CmdError::OrganizationMissing);
        },
        Some(_) => (),
    }
    match io.println("Fetching courses...", PrintColor::Normal) {
        Ok(u) => u,
        Err(e) => {
            return Err(CmdError::IoFailed { message: e });
        },
    }
    let name_select: String = match course_name {
        Some(name) => name.clone(),
        None => {
            let courses = match client.list_courses() {
                Ok(c) => c,
                Err(e) => {
                    return Err(CmdError::TransportError { message: e });
                },
            };
            let mut details: Vec<Course> = Vec::new();
            let mut i: usize = 0;
            while i < courses.len()
                invariant
                    config.organization is Some,
                decreases courses@.len() - i,
            {
                match client.get_course_details(courses[i].id) {
                    Ok(d) => details.push(d),
                    Err(e) => {
                        return Err(CmdError::TransportError { message: e });
                    },
                }
                i += 1;
            }
            let sorted = sort_courses(&details);
            let titles = course_titles(&sorted);
            let chosen_title = match get_course_name(io, titles) {
                Ok(t) => t,
                Err(e) => {
                    return Err(e);
                },
            };
            match find_course_by_title(&sorted, chosen_title.as_str()) {
                Some(c) => c.name,
                None => {
                    return Err(CmdError::CourseNotFound);
                },
            }
        },
    };
    let course = match get_course_by_name(client, name_select.as_str()) {
        Ok(c) => c,
        Err(e) => {
            return Err(e);
        },
    };
    match download_exercises(dest_path, client, &course) {
        Ok(msg) => {
            let line = String::from_str("\n").concat(msg.as_str());
            match io.println(line.as_str(), PrintColor::Success) {
                Ok(u) => u,
                Err(e) => {
                    return Err(CmdError::IoFailed { message: e });
                },
            }
            Ok(DownloadCompletion::Completed)
        },
        Err(err) => {
            if should_elevate(on_windows, &err) {
                match io.println(
                    "Starting new cmd with administrator privileges...",
                    PrintColor::Normal,
                ) {
                    Ok(u) => u,
                    Err(e) => {
                        return Err(CmdError::IoFailed { message: e });
                    },
                }
                Ok(
                    DownloadCompletion::ElevationRequired {
                        state: HandoffState { path: dest_path.clone(), course: course.name },
                    },
                )
            } else {
                Err(err)
            }
        },
    }
}

/// Resumes a handed-off download in the elevated process: parses the handoff
/// line (the caller has already read and deleted the file), resolves the
/// course by its recorded name without any interactive fallback, and runs
/// the identical download path. A malformed line is `HandoffCorrupt`, with
/// no partial recovery; `HandoffCorrupt` arises from nothing else, and any
/// other failure belongs to the resolution or download taxonomy.
pub fn elevated_download<I: Io, C: Client>(io: &mut I, client: &mut C, contents: &str) -> (r:
    Result<(), CmdError>)
    ensures
        !well_formed_handoff(contents@) ==> (r matches Err(e) && e == CmdError::HandoffCorrupt),
        r matches Err(CmdError::HandoffCorrupt) ==> !well_formed_handoff(contents@),
        r is Ok ==> well_formed_handoff(contents@),
        r matches Err(e) ==> (e == CmdError::HandoffCorrupt || e
            matches CmdError::TransportError { .. } || e == CmdError::CourseNotFound || e
            matches CmdError::IoFailed { .. } || e matches CmdError::NoEligibleExercises { .. }
            || e matches CmdError::PartialDownloadFailure { .. }),
{
    let state = match parse_handoff(contents) {
        Ok(s) => s,
        Err(e) => {
            return Err(e);
        },
    };
    let course = match get_course_by_name(client, state.course.as_str()) {
        Ok(c) => c,
        Err(e) => {
            return Err(e);
        },
    };
    match io.println("", PrintColor::Normal) {
        Ok(u) => u,
        Err(e) => {
            return Err(CmdError::IoFailed { message: e });
        },
    }
    let msg = match download_exercises(&state.path, client, &course) {
        Ok(m) => m,
        Err(e) => {
            return Err(e);
        },
    };
    match io.println(msg.as_str(), PrintColor::Success) {
        Ok(u) => u,
        Err(e) => {
            return Err(CmdError::IoFailed { message: e });
        },
    }
    Ok(())
}

} // verus!
