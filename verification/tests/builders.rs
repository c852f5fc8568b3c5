//! Tests of the outbound request builders, both directions.

use ticket_sync::api_request::{
    JiraAddCommentRequest, JiraCreateIssueRequest, JiraUpdateIssueRequest,
};
use ticket_sync::date::Date;
use ticket_sync::jira::JiraPriorityEnum;
use ticket_sync::jira_webhook::{
    JiraWebhook, JiraWebhookChangelog, JiraWebhookChangelogItem, JiraWebhookComment,
    JiraWebhookIssue, JiraWebhookIssueFields, JiraWebhookProject, JiraWebhookUser,
};
use ticket_sync::zammad::{
    ZammadArticle, ZammadPriority, ZammadPriorityId, ZammadState, ZammadTicket, ZammadUser,
    ZammadWebhook,
};
use ticket_sync::zammad_api::{ZammadAddCommentRequest, ZammadUpdateTicketRequest};

fn sample_user() -> ZammadUser {
    ZammadUser {
        id: 9,
        email: "agent@example.org".to_string(),
        firstname: "Alex".to_string(),
        lastname: "Agent".to_string(),
    }
}

fn sample_webhook(
    ticket_id: i32,
    priority: ZammadPriorityId,
    due: Date,
    body: Option<&str>,
) -> ZammadWebhook {
    ZammadWebhook {
        ticket: ZammadTicket {
            id: ticket_id,
            number: "45003".to_string(),
            title: "Printer on fire".to_string(),
            state: ZammadState::Open,
            priority: ZammadPriority { id: priority },
            due_date: due,
            created_by: sample_user(),
            owner: sample_user(),
        },
        article: ZammadArticle {
            id: Some(1),
            ticket_id: Some(ticket_id as u64),
            body: body.map(|b| b.to_string()),
            content_type: Some("text/plain".to_string()),
            sender: Some("Customer".to_string()),
            from: None,
            to: None,
        },
    }
}

fn tracker_user(name: &str) -> JiraWebhookUser {
    JiraWebhookUser {
        accountId: "acc-1".to_string(),
        displayName: name.to_string(),
        active: true,
        timeZone: "UTC".to_string(),
        accountType: "atlassian".to_string(),
    }
}

fn tracker_issue(id: i32, summary: &str) -> JiraWebhookIssue {
    JiraWebhookIssue {
        id,
        key: "CUN-7".to_string(),
        fields: JiraWebhookIssueFields {
            summary: summary.to_string(),
            project: JiraWebhookProject {
                id: 100,
                key: "CUN".to_string(),
                name: "Customer Needs".to_string(),
                projectTypeKey: "software".to_string(),
            },
        },
    }
}

fn changelog_item(field: &str, to_string: &str) -> JiraWebhookChangelogItem {
    JiraWebhookChangelogItem {
        field: field.to_string(),
        fieldtype: "jira".to_string(),
        fieldId: field.to_string(),
        from: "1".to_string(),
        fromString: "old".to_string(),
        to: "2".to_string(),
        toString: to_string.to_string(),
    }
}

#[test]
fn create_request_maps_priority_and_formats_the_due_date() {
    let webhook = sample_webhook(
        100,
        ZammadPriorityId::High,
        Date { year: 2024, month: 3, day: 1 },
        Some("It burns"),
    );
    let request = JiraCreateIssueRequest::from_zammad_webhook(&webhook, 10000);
    assert_eq!(request.fields.priority.name, JiraPriorityEnum::High);
    assert_eq!(request.fields.duedate, "2024-03-01");
    assert_eq!(request.fields.summary, "Printer on fire");
    assert_eq!(request.fields.description, "It burns");
    assert_eq!(request.fields.issuetype.name, "Task");
    assert_eq!(request.fields.project.id, 10000);
}

#[test]
fn create_request_uses_an_empty_description_without_a_body() {
    let webhook = sample_webhook(
        101,
        ZammadPriorityId::Low,
        Date { year: 2024, month: 3, day: 1 },
        None,
    );
    let request = JiraCreateIssueRequest::from_zammad_webhook(&webhook, 1);
    assert_eq!(request.fields.description, "");
    assert_eq!(request.fields.priority.name, JiraPriorityEnum::Lowest);
}

#[test]
fn update_request_carries_only_the_translated_priority() {
    let webhook = sample_webhook(
        102,
        ZammadPriorityId::Normal,
        Date { year: 2024, month: 6, day: 15 },
        None,
    );
    let request = JiraUpdateIssueRequest::from_zammad_webhook(&webhook);
    assert_eq!(request.fields.priority.name, JiraPriorityEnum::Medium);
}

#[test]
fn add_comment_request_passes_the_body_through() {
    let webhook = sample_webhook(
        103,
        ZammadPriorityId::Normal,
        Date { year: 2024, month: 6, day: 15 },
        Some("Customer replied"),
    );
    let request = JiraAddCommentRequest::from_zammad_webhook(&webhook);
    assert_eq!(request.body, "Customer replied");
}

#[test]
fn reverse_comment_request_is_plain_text_with_the_author_name() {
    let comment = JiraWebhookComment {
        id: 55,
        body: "Looks fixed".to_string(),
        author: tracker_user("Dana Dev"),
        issue: tracker_issue(7, "Printer on fire"),
    };
    let request = ZammadAddCommentRequest::from_jira_comment(&comment);
    assert_eq!(request.body, "Looks fixed");
    assert_eq!(request.content_type, "text/plain");
    assert_eq!(request.sender, "Dana Dev");
}

#[test]
fn reverse_update_applies_the_last_matching_changelog_entry_per_field() {
    let webhook = JiraWebhook {
        jira_webhook_comment: None,
        jira_webhook_issue: Some(tracker_issue(7, "Printer on fire")),
        jira_webhook_changelog: Some(JiraWebhookChangelog {
            id: 1,
            items: vec![
                changelog_item("status", "Done"),
                changelog_item("priority", "Low"),
            ],
        }),
        jira_webhook_user: None,
    };
    let request = ZammadUpdateTicketRequest::from_jira_webhook(&webhook);
    assert_eq!(request.state, ZammadState::Closed);
    assert_eq!(request.priority.id, ZammadPriorityId::Low);
    assert_eq!(request.title, "Printer on fire");
}

#[test]
fn reverse_update_lets_the_last_status_entry_win() {
    let webhook = JiraWebhook {
        jira_webhook_comment: None,
        jira_webhook_issue: Some(tracker_issue(7, "Printer on fire")),
        jira_webhook_changelog: Some(JiraWebhookChangelog {
            id: 2,
            items: vec![
                changelog_item("status", "Done"),
                changelog_item("status", "Reopened"),
            ],
        }),
        jira_webhook_user: None,
    };
    let request = ZammadUpdateTicketRequest::from_jira_webhook(&webhook);
    assert_eq!(request.state, ZammadState::Open);
}

#[test]
fn reverse_update_defaults_without_a_changelog() {
    let webhook = JiraWebhook {
        jira_webhook_comment: None,
        jira_webhook_issue: None,
        jira_webhook_changelog: None,
        jira_webhook_user: None,
    };
    let request = ZammadUpdateTicketRequest::from_jira_webhook(&webhook);
    assert_eq!(request.state, ZammadState::Open);
    assert_eq!(request.priority.id, ZammadPriorityId::Normal);
    assert_eq!(request.title, "");
}

#[test]
fn reverse_update_ignores_unrelated_changelog_fields() {
    let webhook = JiraWebhook {
        jira_webhook_comment: None,
        jira_webhook_issue: Some(tracker_issue(8, "Another")),
        jira_webhook_changelog: Some(JiraWebhookChangelog {
            id: 3,
            items: vec![
                changelog_item("assignee", "Dana"),
                changelog_item("priority", "HIGHEST"),
            ],
        }),
        jira_webhook_user: None,
    };
    let request = ZammadUpdateTicketRequest::from_jira_webhook(&webhook);
    assert_eq!(request.state, ZammadState::Open);
    assert_eq!(request.priority.id, ZammadPriorityId::High);
}
