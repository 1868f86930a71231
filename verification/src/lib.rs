//! Download-orchestration core of a course-exercise client.
//!
//! Given a selected organization and course, this library resolves the set of
//! downloadable exercises, classifies the outcome of a bulk download,
//! aggregates partial failures into a single report, and supports handing the
//! operation off to a re-launched elevated process through a small serialized
//! handoff state. The remote service, the terminal, and the file system are
//! collaborators reached through the `Io` and `Client` traits or supplied as
//! plain values by the surrounding program.

pub mod client;
pub mod data;
pub mod error;
pub mod progress;
pub mod download;
pub mod exercises;
pub mod handoff;
pub mod organization;
pub mod report;
pub mod sorting;
pub mod text;
