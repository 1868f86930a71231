//! The collaborator capabilities: the remote client and the console.
//!
//! Both are dynamic capabilities the original design passes around so that a
//! deterministic double can stand in for the live service. Nothing is
//! promised of their results; every caller in this library is verified for
//! whatever they return. The scripted implementations below serve tests.

use vstd::prelude::*;
use vstd::string::*;
use crate::data::{
    clone_courses, clone_exercises, clone_organizations, Course, DownloadOutcome, Exercise,
    Organization, PrintColor,
};

verus! {

/// Console capability: printing, reading a line, and the interactive chooser.
pub trait Io {
    /// Writes text without a newline.
    fn print(&mut self, text: &str, color: PrintColor) -> Result<(), String>;

    /// Writes one line.
    fn println(&mut self, text: &str, color: PrintColor) -> Result<(), String>;

    /// Reads one line of input.
    fn read_line(&mut self) -> Result<String, String>;

    /// Presents the items and returns the chosen one, or `None` when the
    /// selection was interrupted.
    fn pick(&mut self, prompt: &str, items: &Vec<String>) -> Result<Option<String>, String>;
}

/// Remote-service capability: course listing, exercise listing, credentials,
/// and the bulk download.
pub trait Client {
    /// Loads the stored credentials.
    fn load_login(&mut self) -> Result<(), String>;

    /// Lists the organizations of the service.
    fn get_organizations(&mut self) -> Result<Vec<Organization>, String>;

    /// Lists the courses of the selected organization.
    fn list_courses(&mut self) -> Result<Vec<Course>, String>;

    /// Fetches the full record of one course.
    fn get_course_details(&mut self, course_id: u32) -> Result<Course, String>;

    /// Lists the exercises of one course.
    fn get_course_exercises(&mut self, course_id: u32) -> Result<Vec<Exercise>, String>;

    /// Runs the bulk download of the given exercises into the destination
    /// directory. Partial failures come back as a `Failure` outcome; a
    /// transport or protocol failure is an `Err`.
    fn download_or_update_exercises(&mut self, exercise_ids: &Vec<u32>, path: &str) -> Result<
        DownloadOutcome,
        String,
    >;

    /// True in the non-interactive test mode.
    fn is_test_mode(&self) -> bool;
}

/// A console double that records everything printed and serves scripted
/// input and chooser selections.
pub struct RecordingIo {
    /// Every text handed to `print` or `println`, in order.
    pub printed: Vec<String>,
    /// Scripted `read_line` answers, served front to back.
    pub inputs: Vec<String>,
    /// Scripted chooser selections, served front to back.
    pub selections: Vec<Option<String>>,
    /// How many scripted inputs were already served.
    pub inputs_served: usize,
    /// How many scripted selections were already served.
    pub selections_served: usize,
}

impl RecordingIo {
    /// A console double with the given scripted answers.
    pub fn new(inputs: Vec<String>, selections: Vec<Option<String>>) -> (r: RecordingIo)
        ensures
            r.printed@.len() == 0,
    {
        RecordingIo {
            printed: Vec::new(),
            inputs,
            selections,
            inputs_served: 0,
            selections_served: 0,
        }
    }
}

impl Io for RecordingIo {
    fn print(&mut self, text: &str, color: PrintColor) -> Result<(), String> {
        self.printed.push(text.to_owned());
        Ok(())
    }

    fn println(&mut self, text: &str, color: PrintColor) -> Result<(), String> {
        self.printed.push(text.to_owned());
        Ok(())
    }

    fn read_line(&mut self) -> Result<String, String> {
        if self.inputs_served < self.inputs.len() {
            let line = self.inputs[self.inputs_served].clone();
            self.inputs_served = self.inputs_served + 1;
            Ok(line)
        } else {
            Err(String::from_str("no scripted input left"))
        }
    }

    fn pick(&mut self, prompt: &str, items: &Vec<String>) -> Result<Option<String>, String> {
        if self.selections_served < self.selections.len() {
            let choice = match &self.selections[self.selections_served] {
                Some(s) => Some(s.clone()),
                None => None,
            };
            self.selections_served = self.selections_served + 1;
            Ok(choice)
        } else {
            Err(String::from_str("no scripted selection left"))
        }
    }
}

/// A deterministic client double serving fixed data, for testing the
/// orchestration without a live service.
pub struct ScriptedClient {
    pub organizations: Vec<Organization>,
    pub courses: Vec<Course>,
    pub exercises: Vec<Exercise>,
    /// The scripted bulk-download outcome, or the transport error to raise.
    pub download: Result<DownloadOutcome, String>,
    pub test_mode: bool,
}

impl Client for ScriptedClient {
    fn load_login(&mut self) -> Result<(), String> {
        Ok(())
    }

    fn get_organizations(&mut self) -> Result<Vec<Organization>, String> {
        Ok(clone_organizations(&self.organizations))
    }

    fn list_courses(&mut self) -> Result<Vec<Course>, String> {
        Ok(clone_courses(&self.courses))
    }

    fn get_course_details(&mut self, course_id: u32) -> Result<Course, String> {
        let mut i: usize = 0;
        while i < self.courses.len()
            decreases self.courses@.len() - i,
        {
            if self.courses[i].id == course_id {
                return Ok(crate::data::clone_course(&self.courses[i]));
            }
            i += 1;
        }
        Err(String::from_str("no course record with that id"))
    }

    fn get_course_exercises(&mut self, course_id: u32) -> Result<Vec<Exercise>, String> {
        Ok(clone_exercises(&self.exercises))
    }

    fn download_or_update_exercises(&mut self, exercise_ids: &Vec<u32>, path: &str) -> Result<
        DownloadOutcome,
        String,
    > {
        match &self.download {
            Ok(outcome) => Ok(outcome.clone()),
            Err(e) => Err(e.clone()),
        }
    }

    fn is_test_mode(&self) -> bool {
        self.test_mode
    }
}

} // verus!
