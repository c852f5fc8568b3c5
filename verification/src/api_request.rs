//! Outbound request builders for the target (issue tracker) API: each one
//! maps a parsed source-system event to exactly one request body.  Every
//! builder is pure: the same input always produces the same output.

use vstd::prelude::*;

use crate::date::spec_ymd;
use crate::jira::{JiraFields, JiraIssueType, JiraPriority, JiraProject};
use crate::translate::{convert_zammad_priority_to_jira_priority, spec_priority_to_jira};
use crate::zammad::ZammadWebhook;

verus! {

/// The body text an event contributes: the article body, or empty when
/// the event carried none.
pub open spec fn spec_body_or_empty(body: Option<String>) -> Seq<char> {
    match body {
        Some(b) => b@,
        None => Seq::<char>::empty(),
    }
}

/// A create-issue request body.
#[derive(Debug, Clone)]
pub struct JiraCreateIssueRequest {
    pub fields: JiraFields,
}

/// What [`JiraCreateIssueRequest::from_zammad_webhook`] builds: summary
/// from the ticket title, description from the article body (empty when
/// absent), the translated priority, a fixed `Task` issue type, the due
/// date as `YYYY-MM-DD`, and the configured destination project.
pub open spec fn spec_create_issue_request(
    r: JiraCreateIssueRequest,
    webhook: ZammadWebhook,
    project_id: i32,
) -> bool {
    &&& r.fields.project.id == project_id
    &&& r.fields.summary@ == webhook.ticket.title@
    &&& r.fields.description@ == spec_body_or_empty(webhook.article.body)
    &&& r.fields.priority.name == spec_priority_to_jira(webhook.ticket.priority.id)
    &&& r.fields.issuetype.name@ == "Task"@
    &&& r.fields.duedate@ == spec_ymd(webhook.ticket.due_date)
}

impl JiraCreateIssueRequest {
    /// Builds the create-issue request for a source "ticket created"
    /// event.  The destination project is a configuration value, not
    /// derived from the payload.
    pub fn from_zammad_webhook(webhook: &ZammadWebhook, project_id: i32) -> (r: Self)
        requires
            webhook.wf(),
        ensures
            spec_create_issue_request(r, *webhook, project_id),
    {
        Self {
            fields: JiraFields {
                project: JiraProject { id: project_id },
                summary: webhook.ticket.title.clone(),
                description: match &webhook.article.body {
                    Some(b) => b.clone(),
                    None => String::new(),
                },
                priority: JiraPriority {
                    name: convert_zammad_priority_to_jira_priority(webhook.ticket.priority.id),
                },
                issuetype: JiraIssueType { name: String::from_str("Task") },
                duedate: webhook.ticket.due_date.format_ymd(),
            },
        }
    }
}

/// An update-issue request body.
#[derive(Debug, Clone, Copy, PartialEq, Eq, Structural)]
pub struct JiraUpdateIssueRequest {
    pub fields: JiraUpdateIssueProperties,
}

/// The properties an update pushes outbound; limited to priority, since
/// the target workflow refuses status transitions on this path.
#[derive(Debug, Clone, Copy, PartialEq, Eq, Structural)]
pub struct JiraUpdateIssueProperties {
    pub priority: JiraPriority,
}

/// What [`JiraUpdateIssueRequest::from_zammad_webhook`] builds: only the
/// translated priority.
pub open spec fn spec_update_issue_request(
    r: JiraUpdateIssueRequest,
    webhook: ZammadWebhook,
) -> bool {
    r.fields.priority.name == spec_priority_to_jira(webhook.ticket.priority.id)
}

impl JiraUpdateIssueRequest {
    /// Builds the update-issue request for a source "ticket updated"
    /// event.
    pub fn from_zammad_webhook(webhook: &ZammadWebhook) -> (r: Self)
        ensures
            spec_update_issue_request(r, *webhook),
    {
        Self {
            fields: JiraUpdateIssueProperties {
                priority: JiraPriority {
                    name: convert_zammad_priority_to_jira_priority(webhook.ticket.priority.id),
                },
            },
        }
    }
}

/// An add-comment request body: a pass-through of the comment text.
#[derive(Debug, Clone)]
pub struct JiraAddCommentRequest {
    pub body: String,
}

impl JiraAddCommentRequest {
    /// Builds the add-comment request from the event's article body
    /// (empty when absent; the engine only submits it when a non-empty
    /// body is present).
    pub fn from_zammad_webhook(webhook: &ZammadWebhook) -> (r: Self)
        ensures
            r.body@ == spec_body_or_empty(webhook.article.body),
    {
        Self {
            body: match &webhook.article.body {
                Some(b) => b.clone(),
                None => String::new(),
            },
        }
    }
}

/// The parsed response to an add-comment call.
#[derive(Debug, Clone)]
pub struct JiraAddCommentResponse {
    pub id: i32,
}

/// The parsed response to a create-issue call: the new issue's id, which
/// the engine durably attaches to the ticket's assignment.
#[derive(Debug, Clone)]
pub struct JiraCreateIssueResponse {
    pub id: i32,
    pub key: String,
}

} // verus!
