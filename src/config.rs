use vstd::prelude::*;

verus! {

/// What to submit, and where.
pub struct Config {
    pub course: Course,
    pub assignment: Assignment,
}

/// The course that owns the assignment.
pub struct Course {
    pub id: u64,
    pub name: String,
    pub term: String,
}

/// The assignment, with the local files that make up a submission.
pub struct Assignment {
    pub id: u64,
    pub name: String,
    pub files: Vec<String>,
}

/// Why a configuration could not be had.
#[derive(Debug, Clone, Copy, PartialEq, Eq)]
pub enum ConfigError {
    ReadError,
    ParseError,
}

} // verus!
