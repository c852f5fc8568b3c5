//! Domain model of the target (issue tracker) system: the shape of an
//! issue as the outbound API accepts it, and the tracker-side vocabularies.

use vstd::prelude::*;

use crate::zammad::ZammadState;

verus! {

/// An issue as the target system models it.
#[derive(Debug, Clone)]
pub struct JiraIssue {
    pub project: JiraProject,
    /// Additional fields for the issue.
    pub fields: JiraFields,
}

/// Destination project reference; the id is a fixed configuration value.
#[derive(Debug, Clone, Copy, PartialEq, Eq, Structural)]
pub struct JiraProject {
    pub id: i32,
}

/// The field block of a create-issue request body.
#[derive(Debug, Clone)]
pub struct JiraFields {
    pub project: JiraProject,
    pub summary: String,
    pub description: String,
    pub issuetype: JiraIssueType,
    pub priority: JiraPriority,
    pub duedate: String,
}

#[derive(Debug, Clone)]
pub struct JiraIssueType {
    pub name: String,
}

#[derive(Debug, Clone, Copy, PartialEq, Eq, Structural)]
pub struct JiraPriority {
    pub name: JiraPriorityEnum,
}

/// The target system's closed five-level priority vocabulary.
#[derive(Debug, Clone, Copy, PartialEq, Eq, Structural)]
pub enum JiraPriorityEnum {
    Highest,
    High,
    Medium,
    Low,
    Lowest,
}

/// The target-side lifecycle vocabulary.  The target API refuses a status
/// at creation time, so this value is only used on update paths.
#[derive(Debug, Clone, Copy, PartialEq, Eq, Structural)]
pub enum JiraStatus {
    Open,
    Closed,
}

/// The display label of a target-side status, as the tracker's payloads
/// spell it.
pub open spec fn spec_status_label(status: JiraStatus) -> Seq<char> {
    match status {
        JiraStatus::Open => "Open"@,
        JiraStatus::Closed => "Closed"@,
    }
}

impl JiraStatus {
    /// Translates a source lifecycle state into the target vocabulary.
    pub fn from_zammad_state(state: ZammadState) -> (r: JiraStatus)
        ensures
            r == crate::translate::spec_state_to_jira(state),
    {
        match state {
            ZammadState::Open => JiraStatus::Open,
            ZammadState::Closed => JiraStatus::Closed,
        }
    }

    /// The status's display label.
    pub fn label(&self) -> (r: &'static str)
        ensures
            r@ == spec_status_label(*self),
    {
        match self {
            JiraStatus::Open => "Open",
            JiraStatus::Closed => "Closed",
        }
    }
}

} // verus!
