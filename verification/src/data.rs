//! Plain data carried through the download subsystem.

use vstd::prelude::*;

verus! {

/// A course as the remote service describes it: an identifier, a slug-like
/// name used for lookups, and a human-readable title.
pub struct Course {
    pub id: u32,
    pub name: String,
    pub title: String,
}

/// One exercise of a course. Only exercises with `disabled == false` and
/// `unlocked == true` are eligible for download.
pub struct Exercise {
    pub id: u32,
    pub slug: String,
    pub disabled: bool,
    pub unlocked: bool,
}

/// An organization offering courses.
pub struct Organization {
    pub name: String,
    pub slug: String,
    pub pinned: bool,
}

/// Course-scoped identity of an exercise inside a download outcome.
#[derive(Clone)]
pub struct ExerciseIdent {
    pub id: u32,
    pub slug: String,
}

/// One failed exercise with its ordered failure messages.
#[derive(Clone)]
pub struct FailedExercise {
    pub ident: ExerciseIdent,
    pub messages: Vec<String>,
}

/// Outcome of one bulk download invocation.
#[derive(Clone)]
pub enum DownloadOutcome {
    Success { downloaded: Vec<ExerciseIdent>, skipped: Vec<ExerciseIdent> },
    Failure {
        downloaded: Vec<ExerciseIdent>,
        skipped: Vec<ExerciseIdent>,
        failed: Vec<FailedExercise>,
    },
}

/// State persisted for a download that must be retried with elevated rights:
/// the destination directory and the course name.
pub struct HandoffState {
    pub path: String,
    pub course: String,
}

/// Configuration loaded once at process start and passed explicitly.
pub struct Config {
    pub organization: Option<String>,
}

/// Rendering style of a console line.
pub enum PrintColor {
    Normal,
    Success,
}

/// Copies a course field by field.
pub fn clone_course(c: &Course) -> (r: Course)
    ensures
        r == *c,
{
    Course { id: c.id, name: c.name.clone(), title: c.title.clone() }
}

/// Copies a whole course list.
pub fn clone_courses(v: &Vec<Course>) -> (r: Vec<Course>)
    ensures
        r@ == v@,
{
    let mut out: Vec<Course> = Vec::new();
    let mut i: usize = 0;
    while i < v.len()
        invariant
            i <= v@.len(),
            out@ =~= v@.subrange(0, i as int),
        decreases v@.len() - i,
    {
        out.push(clone_course(&v[i]));
        i += 1;
    }
    proof {
        assert(v@.subrange(0, v@.len() as int) =~= v@);
    }
    out
}

/// Copies an exercise field by field.
pub fn clone_exercise(e: &Exercise) -> (r: Exercise)
    ensures
        r == *e,
{
    Exercise { id: e.id, slug: e.slug.clone(), disabled: e.disabled, unlocked: e.unlocked }
}

/// Copies a whole exercise list.
pub fn clone_exercises(v: &Vec<Exercise>) -> (r: Vec<Exercise>)
    ensures
        r@ == v@,
{
    let mut out: Vec<Exercise> = Vec::new();
    let mut i: usize = 0;
    while i < v.len()
        invariant
            i <= v@.len(),
            out@ =~= v@.subrange(0, i as int),
        decreases v@.len() - i,
    {
        out.push(clone_exercise(&v[i]));
        i += 1;
    }
    proof {
        assert(v@.subrange(0, v@.len() as int) =~= v@);
    }
    out
}

/// Copies an organization field by field.
pub fn clone_organization(o: &Organization) -> (r: Organization)
    ensures
        r == *o,
{
    Organization { name: o.name.clone(), slug: o.slug.clone(), pinned: o.pinned }
}

/// Copies a whole organization list.
pub fn clone_organizations(v: &Vec<Organization>) -> (r: Vec<Organization>)
    ensures
        r@ == v@,
{
    let mut out: Vec<Organization> = Vec::new();
    let mut i: usize = 0;
    while i < v.len()
        invariant
            i <= v@.len(),
            out@ =~= v@.subrange(0, i as int),
        decreases v@.len() - i,
    {
        out.push(clone_organization(&v[i]));
        i += 1;
    }
    proof {
        assert(v@.subrange(0, v@.len() as int) =~= v@);
    }
    out
}

} // verus!
