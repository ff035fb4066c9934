//! The Harvest API's records as the library holds them.
//!
//! Lengths of time, which the service sends as fractional hours, are held as
//! whole seconds.
use vstd::prelude::*;

verus! {

/// The signed-in user (`GET /users/me`).
#[derive(Debug, Clone, PartialEq, Eq)]
pub struct User {
    pub id: i64,
    pub first_name: String,
    pub last_name: String,
    pub email: String,
    pub timezone: Option<String>,
    pub avatar_url: Option<String>,
}

/// A client of the account, as embedded in a project.
#[derive(Debug, Clone, PartialEq, Eq)]
pub struct Client {
    pub id: i64,
    pub name: String,
}

/// A project of the account.
#[derive(Debug, Clone, PartialEq, Eq)]
pub struct Project {
    pub id: i64,
    pub name: String,
    pub code: Option<String>,
    pub is_active: bool,
    pub is_billable: bool,
    pub client: Option<Client>,
}

/// A task.
#[derive(Debug, Clone, PartialEq, Eq)]
pub struct Task {
    pub id: i64,
    pub name: String,
}

/// A task as assigned to a project.
#[derive(Debug, Clone, PartialEq, Eq)]
pub struct TaskAssignment {
    pub id: i64,
    pub task: Task,
    pub is_active: bool,
    pub billable: Option<bool>,
}

/// The project of a time entry, as embedded in the entry.
#[derive(Debug, Clone, PartialEq, Eq)]
pub struct TimeEntryProject {
    pub id: i64,
    pub name: String,
    pub code: Option<String>,
}

/// The task of a time entry, as embedded in the entry.
#[derive(Debug, Clone, PartialEq, Eq)]
pub struct TimeEntryTask {
    pub id: i64,
    pub name: String,
}

/// The user of a time entry, as embedded in the entry.
#[derive(Debug, Clone, PartialEq, Eq)]
pub struct TimeEntryUser {
    pub id: i64,
    pub name: String,
}

/// The client of a time entry, as embedded in the entry.
#[derive(Debug, Clone, PartialEq, Eq)]
pub struct TimeEntryClient {
    pub id: i64,
    pub name: String,
}

/// A time entry. `seconds` is the tracked length (the service's `hours`),
/// `rounded_seconds` its rounded length.
#[derive(Debug, Clone, PartialEq, Eq)]
pub struct TimeEntry {
    pub id: i64,
    pub spent_date: String,
    pub seconds: i64,
    pub rounded_seconds: Option<i64>,
    pub notes: Option<String>,
    pub is_running: bool,
    pub timer_started_at: Option<String>,
    pub started_time: Option<String>,
    pub ended_time: Option<String>,
    pub project: Option<TimeEntryProject>,
    pub task: Option<TimeEntryTask>,
    pub client: Option<TimeEntryClient>,
    pub user: Option<TimeEntryUser>,
}

/// The body of `POST /time_entries`. Without a length the service starts a
/// running timer for the new entry.
#[derive(Debug, Clone, PartialEq, Eq)]
pub struct CreateTimeEntry {
    pub project_id: i64,
    pub task_id: i64,
    pub spent_date: String,
    pub seconds: Option<i64>,
    pub notes: Option<String>,
}

/// The body of `PATCH /time_entries/{id}`; fields left `None` are not sent.
#[derive(Debug, Clone, PartialEq, Eq)]
pub struct UpdateTimeEntry {
    pub project_id: Option<i64>,
    pub task_id: Option<i64>,
    pub spent_date: Option<String>,
    pub seconds: Option<i64>,
    pub notes: Option<String>,
}

/// One page of `GET /projects`.
#[derive(Debug, Clone, PartialEq, Eq)]
pub struct ProjectsResponse {
    pub projects: Vec<Project>,
    pub total_entries: i64,
}

/// One page of `GET /projects/{id}/task_assignments`.
#[derive(Debug, Clone, PartialEq, Eq)]
pub struct TaskAssignmentsResponse {
    pub task_assignments: Vec<TaskAssignment>,
    pub total_entries: i64,
}

/// One page of `GET /time_entries`.
#[derive(Debug, Clone, PartialEq, Eq)]
pub struct TimeEntriesResponse {
    pub time_entries: Vec<TimeEntry>,
    pub total_entries: i64,
}

/// An update that only replaces the notes of an entry.
pub fn notes_update(notes: String) -> (u: UpdateTimeEntry)
    ensures
        u.project_id is None,
        u.task_id is None,
        u.spent_date is None,
        u.seconds is None,
        u.notes == Some(notes),
{
    UpdateTimeEntry { project_id: None, task_id: None, spent_date: None, seconds: None, notes: Some(notes) }
}

} // verus!
