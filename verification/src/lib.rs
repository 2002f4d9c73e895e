use vstd::prelude::*;

pub mod app_dir;
pub mod commands;
pub mod control;
pub mod db;
pub mod model;
pub mod store;
pub mod util;

verus! {

/// The error conditions a command can report.
#[derive(Clone, Copy, Debug, PartialEq, Eq, Structural)]
pub enum TodoError {
    /// A supplied date string is not a valid `YYYY-MM-DD` calendar date.
    InvalidDate,
    /// A supplied time string is not a valid `HH:MM:SS` time of day.
    InvalidTime,
    /// A supplied uuid string is not a well-formed UUID.
    InvalidUuid,
    /// A list filter is neither `0` nor `1`.
    InvalidStatus,
    /// No todo with the requested uuid exists.
    NotFound,
    /// The system clock reported a date outside the supported range.
    Clock,
    /// The underlying database reported a failure, or a stored row is malformed.
    Storage,
}

impl TodoError {
    /// A short human-readable description, for the command boundary to print.
    pub fn describe(&self) -> &'static str {
        match self {
            TodoError::InvalidDate => "invalid date (expected YYYY-MM-DD)",
            TodoError::InvalidTime => "invalid time (expected HH:MM:SS)",
            TodoError::InvalidUuid => "invalid uuid",
            TodoError::InvalidStatus => "invalid status (expected 0 or 1)",
            TodoError::NotFound => "no todo with that uuid",
            TodoError::Clock => "system clock out of range",
            TodoError::Storage => "storage failure",
        }
    }
}

/// Inputs for creating a todo.
pub struct AddOptions {
    pub title: String,
    pub date: Option<String>,
    pub time: Option<String>,
    pub description: Option<String>,
    pub url: Option<String>,
}

/// Inputs for listing todos: which completion status to show, `"0"` or `"1"`.
pub struct ListOptions {
    pub status: String,
}

/// Inputs for the commands that target one existing todo.
pub struct UuidOptions {
    pub uuid: String,
}

/// Inputs for editing a todo: absent fields keep their previous value.
pub struct EditOptions {
    pub uuid: String,
    pub title: Option<String>,
    pub date: Option<String>,
    pub time: Option<String>,
    pub description: Option<String>,
    pub url: Option<String>,
}

} // verus!
