//! The synchronization engine: the per-ticket state machine (unlinked,
//! pending creation, linked) and the decisions it takes on each inbound
//! event.  The engine is stateless between invocations; all state lives
//! in the assignment store.  Each decision function either updates the
//! store or returns the exact outbound requests the caller must submit;
//! an error means no remote call is owed.

use vstd::prelude::*;

use crate::api_request::{
    spec_create_issue_request, spec_update_issue_request, JiraAddCommentRequest,
    JiraCreateIssueRequest, JiraUpdateIssueRequest,
};
use crate::jira_webhook::JiraWebhook;
use crate::store::AssignmentStore;
use crate::zammad::ZammadWebhook;
use crate::zammad_api::{
    spec_update_source_ticket_request, ZammadAddCommentRequest, ZammadUpdateTicketRequest,
};

verus! {

/// The failure taxonomy of the synchronization core.
#[derive(Debug, Clone, Copy, PartialEq, Eq, Structural)]
pub enum SyncError {
    /// The inbound payload is malformed or unprocessable.
    ValidationError,
    /// An assignment for the source ticket already exists.  Benign on
    /// the creation path: the engine treats it as success.
    DuplicateSourceTicket,
    /// No assignment exists for the given id.
    NotFound,
    /// The assignment exists but its target id is still unset.
    PendingCreation,
    /// The ticket is not linked yet; the caller should let the sender
    /// redeliver the event later.
    NotYetLinked,
    /// The remote API returned a failure or an unparsable response.
    RemoteApiError,
    /// The assignment store is unreachable or a write failed.
    PersistenceError,
}

/// What the engine decides on a creation event.
#[derive(Debug, Clone)]
pub enum CreateAction {
    /// A pending assignment was inserted: submit this create-issue
    /// request, then report its new issue id via
    /// [`complete_create`].
    Submit(JiraCreateIssueRequest),
    /// An assignment already exists (a retried webhook): submit nothing
    /// and report success.
    AlreadyLinked,
}

impl AssignmentStore {
    /// Handles a "ticket created" event: inserts the pending assignment
    /// before any remote call, so that a duplicate delivery of the same
    /// event finds the assignment and is answered with success without a
    /// second create request.
    pub fn begin_create(&mut self, webhook: &ZammadWebhook, project_id: i32) -> (r: CreateAction)
        requires
            old(self).wf(),
            webhook.wf(),
        ensures
            final(self).wf(),
            old(self)@.dom().contains(webhook.ticket.id) ==> r is AlreadyLinked && final(self)@
                == old(self)@,
            !old(self)@.dom().contains(webhook.ticket.id) ==> final(self)@ == old(self)@.insert(
                webhook.ticket.id,
                None::<i32>,
            ) && (r matches CreateAction::Submit(req) && spec_create_issue_request(
                req,
                *webhook,
                project_id,
            )),
    {
        match self.create_pending(webhook.ticket.id) {
            Err(_) => CreateAction::AlreadyLinked,
            Ok(_) => CreateAction::Submit(
                JiraCreateIssueRequest::from_zammad_webhook(webhook, project_id),
            ),
        }
    }

    /// Records the issue id the remote create call returned, moving the
    /// ticket from pending creation to linked.
    pub fn complete_create(&mut self, zammad_ticket_id: i32, jira_issue_id: i32) -> (r: Result<
        (),
        SyncError,
    >)
        requires
            old(self).wf(),
        ensures
            final(self).wf(),
            old(self)@.dom().contains(zammad_ticket_id) ==> r == Ok::<(), SyncError>(())
                && final(self)@ == old(self)@.insert(zammad_ticket_id, Some(jira_issue_id)),
            !old(self)@.dom().contains(zammad_ticket_id) ==> r == Err::<(), SyncError>(
                SyncError::NotFound,
            ) && final(self)@ == old(self)@,
    {
        match self.attach_target(zammad_ticket_id, jira_issue_id) {
            Ok(_) => Ok(()),
            Err(_) => Err(SyncError::NotFound),
        }
    }
}

/// The remote calls an "updated" event obliges: at most one add-comment
/// request, then always one priority update, both against the linked
/// issue.
#[derive(Debug, Clone)]
pub struct UpdatePlan {
    /// The linked issue in the target system.
    pub jira_issue_id: i32,
    /// Present exactly when the event carried a non-empty comment body;
    /// submitted before the update.
    pub comment: Option<JiraAddCommentRequest>,
    /// The priority update; always submitted.
    pub update: JiraUpdateIssueRequest,
}

/// What [`plan_update`] promises of a returned plan: it addresses the
/// linked issue, carries the event's comment body exactly when one
/// non-empty body is present, and the priority update built from the
/// snapshot.
pub open spec fn spec_update_plan(
    plan: UpdatePlan,
    webhook: ZammadWebhook,
    jira_issue_id: i32,
) -> bool {
    &&& plan.jira_issue_id == jira_issue_id
    &&& (match webhook.article.body {
        Some(b) => if b@.len() > 0 {
            plan.comment matches Some(c) && c.body@ == b@
        } else {
            plan.comment is None
        },
        None => plan.comment is None,
    })
    &&& spec_update_issue_request(plan.update, webhook)
}

/// Handles a "ticket updated" event: resolves the linked issue and plans
/// the outbound calls.  A ticket that is unlinked or still pending
/// creation fails with `NotYetLinked` and obliges zero remote calls; the
/// sender is expected to redeliver later.
pub fn plan_update(store: &AssignmentStore, webhook: &ZammadWebhook) -> (r: Result<
    UpdatePlan,
    SyncError,
>)
    requires
        store.wf(),
    ensures
        !store@.dom().contains(webhook.ticket.id) ==> r == Err::<UpdatePlan, SyncError>(
            SyncError::NotYetLinked,
        ),
        store@.dom().contains(webhook.ticket.id) && store@[webhook.ticket.id] is None ==> r
            == Err::<UpdatePlan, SyncError>(SyncError::NotYetLinked),
        store@.dom().contains(webhook.ticket.id) && store@[webhook.ticket.id] is Some ==> (
        r matches Ok(plan) && spec_update_plan(plan, *webhook, store@[webhook.ticket.id]->0)),
{
    match store.resolve_target(webhook.ticket.id) {
        Err(_) => Err(SyncError::NotYetLinked),
        Ok(jira_issue_id) => {
            let comment = match &webhook.article.body {
                Some(b) => if b.as_str().unicode_len() > 0 {
                    Some(JiraAddCommentRequest::from_zammad_webhook(webhook))
                } else {
                    None
                },
                None => None,
            };
            Ok(
                UpdatePlan {
                    jira_issue_id,
                    comment,
                    update: JiraUpdateIssueRequest::from_zammad_webhook(webhook),
                },
            )
        },
    }
}

/// The calls a reverse-direction event obliges against the source API:
/// at most one add-comment request, and one ticket update derived from
/// the changelog.  No creation is ever initiated from this direction:
/// every assignment originates from a source-side creation event.
#[derive(Debug, Clone)]
pub struct ReverseUpdatePlan {
    /// The source ticket the event's issue is linked to.
    pub zammad_ticket_id: i32,
    /// Present exactly when the event carried a comment; submitted
    /// first.
    pub comment: Option<ZammadAddCommentRequest>,
    /// The ticket update derived from the issue summary and changelog.
    pub update: ZammadUpdateTicketRequest,
}

/// What [`plan_reverse_update`] promises of a returned plan's contents.
pub open spec fn spec_reverse_plan_content(plan: ReverseUpdatePlan, webhook: JiraWebhook) -> bool {
    &&& (match webhook.jira_webhook_comment {
        Some(c) => plan.comment matches Some(r) && r.body@ == c.body@ && r.content_type@
            == "text/plain"@ && r.sender@ == c.author.displayName@,
        None => plan.comment is None,
    })
    &&& spec_update_source_ticket_request(plan.update, webhook)
}

/// Handles an event that originated in the target system: resolves the
/// source ticket through the assignment store keyed in the opposite
/// direction and plans the update and comment calls against the source
/// API.  A payload without an issue section is unprocessable.
pub fn plan_reverse_update(store: &AssignmentStore, webhook: &JiraWebhook) -> (r: Result<
    ReverseUpdatePlan,
    SyncError,
>)
    requires
        store.wf(),
    ensures
        webhook.jira_webhook_issue is None ==> r == Err::<ReverseUpdatePlan, SyncError>(
            SyncError::ValidationError,
        ),
        webhook.jira_webhook_issue matches Some(issue) ==> {
            &&& !(exists|z: i32|
                #![trigger store@[z]]
                store@.dom().contains(z) && store@[z] == Some(issue.id)) ==> r == Err::<
                ReverseUpdatePlan,
                SyncError,
            >(SyncError::NotFound)
            &&& (exists|z: i32|
                #![trigger store@[z]]
                store@.dom().contains(z) && store@[z] == Some(issue.id)) ==> (
            r matches Ok(plan) && store@.dom().contains(plan.zammad_ticket_id) && store@[
                plan.zammad_ticket_id] == Some(issue.id) && spec_reverse_plan_content(
                plan,
                *webhook,
            ))
        },
{
    let issue_id = match &webhook.jira_webhook_issue {
        Some(issue) => issue.id,
        None => {
            return Err(SyncError::ValidationError);
        },
    };
    match store.resolve_source(issue_id) {
        Err(_) => Err(SyncError::NotFound),
        Ok(zammad_ticket_id) => {
            let comment = match &webhook.jira_webhook_comment {
                Some(c) => Some(ZammadAddCommentRequest::from_jira_comment(c)),
                None => None,
            };
            Ok(
                ReverseUpdatePlan {
                    zammad_ticket_id,
                    comment,
                    update: ZammadUpdateTicketRequest::from_jira_webhook(webhook),
                },
            )
        },
    }
}

/// Law: once a creation event for a fresh ticket has been accepted (its
/// pending assignment inserted) and the remote create's issue id
/// attached, the store maps the ticket to exactly that issue id.  By
/// [`plan_update`]'s contract, an update event for the ticket then
/// yields a plan against that id, with one comment request exactly when
/// the event carries a non-empty body, and always one priority update.
pub proof fn lemma_update_after_create(
    m: Map<i32, Option<i32>>,
    zammad_ticket_id: i32,
    jira_issue_id: i32,
)
    requires
        !m.dom().contains(zammad_ticket_id),
    ensures
        m.insert(zammad_ticket_id, None::<i32>).insert(
            zammad_ticket_id,
            Some(jira_issue_id),
        ).dom().contains(zammad_ticket_id),
        m.insert(zammad_ticket_id, None::<i32>).insert(zammad_ticket_id, Some(jira_issue_id))[
            zammad_ticket_id] == Some(jira_issue_id),
{
}

} // verus!
