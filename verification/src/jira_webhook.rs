//! Domain model of a reverse-direction webhook: an event originating in
//! the target (issue tracker) system, reduced to the plain fields the
//! synchronization logic reads.  Field names follow the tracker's payload
//! schema.

use vstd::prelude::*;

verus! {

/// A reverse-direction webhook payload; every section is optional and the
/// logic checks what it needs.
#[derive(Debug, Clone)]
pub struct JiraWebhook {
    pub jira_webhook_comment: Option<JiraWebhookComment>,
    pub jira_webhook_issue: Option<JiraWebhookIssue>,
    pub jira_webhook_changelog: Option<JiraWebhookChangelog>,
    pub jira_webhook_user: Option<JiraWebhookUser>,
}

/// A comment carried by a reverse-direction event.
#[derive(Debug, Clone)]
pub struct JiraWebhookComment {
    pub id: i32,
    pub body: String,
    pub author: JiraWebhookUser,
    pub issue: JiraWebhookIssue,
}

/// The issue a reverse-direction event refers to.
#[derive(Debug, Clone)]
pub struct JiraWebhookIssue {
    pub id: i32,
    pub key: String,
    pub fields: JiraWebhookIssueFields,
}

#[derive(Debug, Clone)]
pub struct JiraWebhookIssueFields {
    pub summary: String,
    pub project: JiraWebhookProject,
}

#[allow(non_snake_case)]
#[derive(Debug, Clone)]
pub struct JiraWebhookProject {
    pub id: i32,
    pub key: String,
    pub name: String,
    pub projectTypeKey: String,
}

/// The list of field changes a reverse-direction event carries.
#[derive(Debug, Clone)]
pub struct JiraWebhookChangelog {
    pub id: i32,
    pub items: Vec<JiraWebhookChangelogItem>,
}

/// One field change: which field changed and its old and new values, both
/// as raw and as display strings.
#[allow(non_snake_case)]
#[derive(Debug, Clone)]
pub struct JiraWebhookChangelogItem {
    pub field: String,
    pub fieldtype: String,
    pub fieldId: String,
    pub from: String,
    pub fromString: String,
    pub to: String,
    pub toString: String,
}

/// A tracker-side user as the payload carries it.
#[allow(non_snake_case)]
#[derive(Debug, Clone)]
pub struct JiraWebhookUser {
    pub accountId: String,
    pub displayName: String,
    pub active: bool,
    pub timeZone: String,
    pub accountType: String,
}

} // verus!
