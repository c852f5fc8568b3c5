//! Tests of the assignment store's contract and the synchronization
//! engine's state machine.

use ticket_sync::config::{Config, JiraConfig, ZammadConfig};
use ticket_sync::date::Date;
use ticket_sync::engine::{plan_reverse_update, plan_update, CreateAction, SyncError};
use ticket_sync::jira::JiraPriorityEnum;
use ticket_sync::jira_webhook::{
    JiraWebhook, JiraWebhookComment, JiraWebhookIssue, JiraWebhookIssueFields, JiraWebhookProject,
    JiraWebhookUser,
};
use ticket_sync::store::{AssignmentStore, StoreError};
use ticket_sync::zammad::{
    ZammadArticle, ZammadPriority, ZammadPriorityId, ZammadState, ZammadTicket, ZammadUser,
    ZammadWebhook,
};

fn webhook_for(ticket_id: i32, priority: ZammadPriorityId, body: Option<&str>) -> ZammadWebhook {
    let user = ZammadUser {
        id: 3,
        email: "reporter@example.org".to_string(),
        firstname: "Rey".to_string(),
        lastname: "Reporter".to_string(),
    };
    ZammadWebhook {
        ticket: ZammadTicket {
            id: ticket_id,
            number: format!("T-{}", ticket_id),
            title: "Sync me".to_string(),
            state: ZammadState::Open,
            priority: ZammadPriority { id: priority },
            due_date: Date { year: 2024, month: 3, day: 1 },
            created_by: user.clone(),
            owner: user,
        },
        article: ZammadArticle {
            id: Some(10),
            ticket_id: Some(ticket_id as u64),
            body: body.map(|b| b.to_string()),
            content_type: Some("text/plain".to_string()),
            sender: Some("Customer".to_string()),
            from: None,
            to: None,
        },
    }
}

fn reverse_webhook(issue_id: i32, comment: Option<&str>) -> JiraWebhook {
    let issue = JiraWebhookIssue {
        id: issue_id,
        key: "CUN-9".to_string(),
        fields: JiraWebhookIssueFields {
            summary: "Mirrored issue".to_string(),
            project: JiraWebhookProject {
                id: 100,
                key: "CUN".to_string(),
                name: "Customer Needs".to_string(),
                projectTypeKey: "software".to_string(),
            },
        },
    };
    JiraWebhook {
        jira_webhook_comment: comment.map(|body| JiraWebhookComment {
            id: 5,
            body: body.to_string(),
            author: JiraWebhookUser {
                accountId: "acc-2".to_string(),
                displayName: "Dana Dev".to_string(),
                active: true,
                timeZone: "UTC".to_string(),
                accountType: "atlassian".to_string(),
            },
            issue: issue.clone(),
        }),
        jira_webhook_issue: Some(issue),
        jira_webhook_changelog: None,
        jira_webhook_user: None,
    }
}

#[test]
fn create_pending_twice_succeeds_exactly_once() {
    let mut store = AssignmentStore::new();
    assert_eq!(store.create_pending(100), Ok(0));
    assert_eq!(store.create_pending(100), Err(StoreError::DuplicateSourceTicket));
}

#[test]
fn attach_target_requires_an_existing_assignment() {
    let mut store = AssignmentStore::new();
    assert_eq!(store.attach_target(1, 7), Err(StoreError::NotFound));
    store.create_pending(1).unwrap();
    assert_eq!(store.attach_target(1, 7), Ok(()));
    assert_eq!(store.resolve_target(1), Ok(7));
}

#[test]
fn resolve_target_distinguishes_missing_from_pending() {
    let mut store = AssignmentStore::new();
    assert_eq!(store.resolve_target(1), Err(StoreError::NotFound));
    store.create_pending(1).unwrap();
    assert_eq!(store.resolve_target(1), Err(StoreError::PendingCreation));
    store.attach_target(1, 7).unwrap();
    assert_eq!(store.resolve_target(1), Ok(7));
}

#[test]
fn resolve_source_finds_the_linked_ticket() {
    let mut store = AssignmentStore::new();
    store.create_pending(1).unwrap();
    store.attach_target(1, 7).unwrap();
    assert_eq!(store.resolve_source(7), Ok(1));
    assert_eq!(store.resolve_source(8), Err(StoreError::NotFound));
}

#[test]
fn assignments_are_listed_in_creation_order() {
    let mut store = AssignmentStore::new();
    store.create_pending(5).unwrap();
    store.create_pending(6).unwrap();
    store.attach_target(6, 70).unwrap();
    assert_eq!(store.assignment_count(), 2);
    let first = store.assignment_at(0);
    assert_eq!((first.id, first.zammad_id, first.jira_id), (0, 5, None));
    let second = store.assignment_at(1);
    assert_eq!((second.id, second.zammad_id, second.jira_id), (1, 6, Some(70)));
}

#[test]
fn begin_create_submits_once_and_tolerates_retries() {
    let mut store = AssignmentStore::new();
    let webhook = webhook_for(100, ZammadPriorityId::High, Some("first"));
    match store.begin_create(&webhook, 10000) {
        CreateAction::Submit(request) => {
            assert_eq!(request.fields.priority.name, JiraPriorityEnum::High);
            assert_eq!(request.fields.duedate, "2024-03-01");
        }
        CreateAction::AlreadyLinked => panic!("fresh ticket must submit a create"),
    }
    match store.begin_create(&webhook, 10000) {
        CreateAction::Submit(_) => panic!("retried creation must not submit again"),
        CreateAction::AlreadyLinked => {}
    }
}

#[test]
fn update_after_create_targets_the_attached_issue() {
    let mut store = AssignmentStore::new();
    let created = webhook_for(100, ZammadPriorityId::High, Some("first"));
    match store.begin_create(&created, 10000) {
        CreateAction::Submit(_) => {}
        CreateAction::AlreadyLinked => panic!("fresh ticket must submit a create"),
    }
    store.complete_create(100, 777).unwrap();

    let updated = webhook_for(100, ZammadPriorityId::Normal, Some("Customer replied"));
    let plan = plan_update(&store, &updated).unwrap();
    assert_eq!(plan.jira_issue_id, 777);
    let comment = plan.comment.expect("a non-empty body must yield exactly one comment call");
    assert_eq!(comment.body, "Customer replied");
    assert_eq!(plan.update.fields.priority.name, JiraPriorityEnum::Medium);
}

#[test]
fn update_without_a_body_plans_no_comment() {
    let mut store = AssignmentStore::new();
    store.create_pending(1).unwrap();
    store.attach_target(1, 7).unwrap();
    let webhook = webhook_for(1, ZammadPriorityId::Low, None);
    let plan = plan_update(&store, &webhook).unwrap();
    assert!(plan.comment.is_none());
    assert_eq!(plan.update.fields.priority.name, JiraPriorityEnum::Lowest);
}

#[test]
fn update_with_an_empty_body_plans_no_comment() {
    let mut store = AssignmentStore::new();
    store.create_pending(1).unwrap();
    store.attach_target(1, 7).unwrap();
    let webhook = webhook_for(1, ZammadPriorityId::Low, Some(""));
    let plan = plan_update(&store, &webhook).unwrap();
    assert!(plan.comment.is_none());
}

#[test]
fn update_for_an_unlinked_ticket_fails_with_not_yet_linked() {
    let store = AssignmentStore::new();
    let webhook = webhook_for(42, ZammadPriorityId::Normal, Some("hello"));
    assert_eq!(plan_update(&store, &webhook).unwrap_err(), SyncError::NotYetLinked);
}

#[test]
fn update_while_creation_is_pending_fails_with_not_yet_linked() {
    let mut store = AssignmentStore::new();
    store.create_pending(42).unwrap();
    let webhook = webhook_for(42, ZammadPriorityId::Normal, Some("hello"));
    assert_eq!(plan_update(&store, &webhook).unwrap_err(), SyncError::NotYetLinked);
}

#[test]
fn complete_create_for_an_unknown_ticket_reports_not_found() {
    let mut store = AssignmentStore::new();
    assert_eq!(store.complete_create(9, 90), Err(SyncError::NotFound));
}

#[test]
fn reverse_update_resolves_the_source_ticket() {
    let mut store = AssignmentStore::new();
    store.create_pending(100).unwrap();
    store.attach_target(100, 777).unwrap();
    let webhook = reverse_webhook(777, Some("Looks fixed"));
    let plan = plan_reverse_update(&store, &webhook).unwrap();
    assert_eq!(plan.zammad_ticket_id, 100);
    let comment = plan.comment.expect("a tracker comment must be mirrored");
    assert_eq!(comment.body, "Looks fixed");
    assert_eq!(comment.sender, "Dana Dev");
    assert_eq!(plan.update.title, "Mirrored issue");
}

#[test]
fn reverse_update_without_an_issue_section_is_unprocessable() {
    let store = AssignmentStore::new();
    let webhook = JiraWebhook {
        jira_webhook_comment: None,
        jira_webhook_issue: None,
        jira_webhook_changelog: None,
        jira_webhook_user: None,
    };
    assert_eq!(
        plan_reverse_update(&store, &webhook).unwrap_err(),
        SyncError::ValidationError
    );
}

#[test]
fn reverse_update_for_an_unknown_issue_reports_not_found() {
    let store = AssignmentStore::new();
    let webhook = reverse_webhook(777, None);
    assert_eq!(plan_reverse_update(&store, &webhook).unwrap_err(), SyncError::NotFound);
}

#[test]
fn config_sections_and_getters_hand_back_their_values() {
    let config = Config {
        jira: JiraConfig {
            endpoint: "https://tracker.example.org/rest/api/2/issue".to_string(),
            username: "bridge".to_string(),
            token: "SECRET-REDACTED".to_string(),
            project_id: 10000,
        },
        zammad: ZammadConfig {
            endpoint: "https://helpdesk.example.org/api/v1".to_string(),
            token: "SECRET-REDACTED".to_string(),
            group: "Users".to_string(),
            customer: "customer@example.org".to_string(),
        },
        db_path: "assignments.db".to_string(),
    };
    let jira = config.get_jira();
    assert_eq!(jira.get_jira_url(), "https://tracker.example.org/rest/api/2/issue");
    assert_eq!(jira.get_jira_credentials().0, "bridge");
    assert_eq!(jira.get_jira_project(), 10000);
    let zammad = config.get_zammad();
    assert_eq!(zammad.get_zammad_url(), "https://helpdesk.example.org/api/v1");
    assert_eq!(zammad.get_zammad_token(), "SECRET-REDACTED");
}
