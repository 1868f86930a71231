//! The error taxonomy of the subsystem and its user-visible messages.

use vstd::prelude::*;
use vstd::string::*;

verus! {

/// Every failure the subsystem can surface. Each carries exactly the data its
/// message needs; the aggregated partial-failure report travels whole in
/// `PartialDownloadFailure`.
#[derive(Debug)]
pub enum CmdError {
    /// No organization has been selected yet.
    OrganizationMissing,
    /// An explicitly named course matched no course of the client.
    CourseNotFound,
    /// The interactive chooser returned no selection.
    SelectionCancelled,
    /// The interactive chooser returned an empty title.
    SelectionEmpty,
    /// The course has no downloadable exercises.
    NoEligibleExercises { course_title: String },
    /// Some exercises failed to download; the report holds the whole picture.
    PartialDownloadFailure { report: String },
    /// The bulk download call itself failed.
    TransportError { message: String },
    /// A console operation failed.
    IoFailed { message: String },
    /// The handoff file held a malformed line.
    HandoffCorrupt,
    /// The user chose no organization.
    NoOrganizationChosen,
    /// No organization carries the slug the user wrote.
    OrganizationSlugNotFound { slug: String },
    /// The chosen organization name vanished from the fetched list.
    OrganizationNameNotFound,
}

impl CmdError {
    /// The user-visible message of this error.
    pub open spec fn message_spec(self) -> Seq<char> {
        match self {
            CmdError::OrganizationMissing => "No organization found. Run 'tmc organization' first."@,
            CmdError::CourseNotFound => "Could not find course with that name"@,
            CmdError::SelectionCancelled => "Course selection was interrupted"@,
            CmdError::SelectionEmpty => "Could not find a course by the given title"@,
            CmdError::NoEligibleExercises { course_title } => "No valid exercises found for course '"@
                + course_title@ + "'"@,
            CmdError::PartialDownloadFailure { report } => report@,
            CmdError::TransportError { message } => message@,
            CmdError::IoFailed { message } => message@,
            CmdError::HandoffCorrupt => "Malformed handoff state"@,
            CmdError::NoOrganizationChosen => "No organization chosen"@,
            CmdError::OrganizationSlugNotFound { slug } => "No such organization for the given slug: "@
                + slug@,
            CmdError::OrganizationNameNotFound => "Something strange happened"@,
        }
    }

    /// Builds the user-visible message.
    pub fn message(&self) -> (r: String)
        ensures
            r@ == self.message_spec(),
    {
        match self {
            CmdError::OrganizationMissing => String::from_str(
                "No organization found. Run 'tmc organization' first.",
            ),
            CmdError::CourseNotFound => String::from_str("Could not find course with that name"),
            CmdError::SelectionCancelled => String::from_str("Course selection was interrupted"),
            CmdError::SelectionEmpty => String::from_str(
                "Could not find a course by the given title",
            ),
            CmdError::NoEligibleExercises { course_title } => String::from_str(
                "No valid exercises found for course '",
            ).concat(course_title.as_str()).concat("'"),
            CmdError::PartialDownloadFailure { report } => report.clone(),
            CmdError::TransportError { message } => message.clone(),
            CmdError::IoFailed { message } => message.clone(),
            CmdError::HandoffCorrupt => String::from_str("Malformed handoff state"),
            CmdError::NoOrganizationChosen => String::from_str("No organization chosen"),
            CmdError::OrganizationSlugNotFound { slug } => String::from_str(
                "No such organization for the given slug: ",
            ).concat(slug.as_str()),
            CmdError::OrganizationNameNotFound => String::from_str("Something strange happened"),
        }
    }
}

} // verus!
