//! Outbound request builders for the source (helpdesk) API: the reverse
//! direction, where an event originating in the issue tracker is turned
//! into an update or comment on the source ticket.

use vstd::prelude::*;

use crate::jira_webhook::{JiraWebhook, JiraWebhookChangelogItem, JiraWebhookComment};
use crate::text::{lower, matches_lowered, str_eq};
use crate::zammad::{ZammadPriority, ZammadPriorityId, ZammadState};

verus! {

/// The source state a tracker-side status label translates to: the
/// labels of finished work map to closed; any unrecognized free-text
/// value falls back to open by design.
pub open spec fn spec_state_of_label(label: Seq<char>) -> ZammadState {
    if lower(label) == "done"@ || lower(label) == "closed"@ || lower(label) == "resolved"@ {
        ZammadState::Closed
    } else {
        ZammadState::Open
    }
}

/// The source priority a tracker-side priority label translates to; an
/// unrecognized value falls back to normal.
pub open spec fn spec_priority_of_label(label: Seq<char>) -> ZammadPriorityId {
    if lower(label) == "highest"@ || lower(label) == "blocker"@ || lower(label) == "high"@ {
        ZammadPriorityId::High
    } else if lower(label) == "medium"@ {
        ZammadPriorityId::Normal
    } else if lower(label) == "low"@ || lower(label) == "lowest"@ {
        ZammadPriorityId::Low
    } else {
        ZammadPriorityId::Normal
    }
}

/// Translates a tracker-side status change value back into the source
/// lifecycle vocabulary, matching labels without regard to ASCII case.
pub fn target_change_to_source_state(label: &str) -> (r: ZammadState)
    ensures
        r == spec_state_of_label(label@),
{
    if matches_lowered(label, "done") || matches_lowered(label, "closed")
        || matches_lowered(label, "resolved") {
        ZammadState::Closed
    } else {
        ZammadState::Open
    }
}

/// Translates a tracker-side priority change value back into the source
/// three-level vocabulary, matching labels without regard to ASCII case.
pub fn target_change_to_source_priority(label: &str) -> (r: ZammadPriorityId)
    ensures
        r == spec_priority_of_label(label@),
{
    if matches_lowered(label, "highest") || matches_lowered(label, "blocker")
        || matches_lowered(label, "high") {
        ZammadPriorityId::High
    } else if matches_lowered(label, "medium") {
        ZammadPriorityId::Normal
    } else if matches_lowered(label, "low") || matches_lowered(label, "lowest") {
        ZammadPriorityId::Low
    } else {
        ZammadPriorityId::Normal
    }
}

/// The state after scanning a changelog front to back: the last entry
/// that changed `status` wins; with none, the open default stands.
pub open spec fn spec_final_state(items: Seq<JiraWebhookChangelogItem>) -> ZammadState
    decreases items.len(),
{
    if items.len() == 0 {
        ZammadState::Open
    } else if items.last().field@ == "status"@ {
        spec_state_of_label(items.last().toString@)
    } else {
        spec_final_state(items.drop_last())
    }
}

/// The priority after scanning a changelog front to back: the last entry
/// that changed `priority` wins; with none, the normal default stands.
pub open spec fn spec_final_priority(items: Seq<JiraWebhookChangelogItem>) -> ZammadPriorityId
    decreases items.len(),
{
    if items.len() == 0 {
        ZammadPriorityId::Normal
    } else if items.last().field@ == "priority"@ {
        spec_priority_of_label(items.last().toString@)
    } else {
        spec_final_priority(items.drop_last())
    }
}

/// The changelog entries a reverse-direction payload carries, or none.
pub open spec fn spec_changelog_items(webhook: JiraWebhook) -> Seq<JiraWebhookChangelogItem> {
    match webhook.jira_webhook_changelog {
        Some(changelog) => changelog.items@,
        None => Seq::<JiraWebhookChangelogItem>::empty(),
    }
}

/// An update-ticket request body for the source API.
#[derive(Debug, Clone)]
pub struct ZammadUpdateTicketRequest {
    pub title: String,
    pub state: ZammadState,
    pub priority: ZammadPriority,
}

/// What [`ZammadUpdateTicketRequest::from_jira_webhook`] builds: the
/// title from the issue summary (empty when the payload has no issue),
/// and state and priority from the last matching changelog entries.
pub open spec fn spec_update_source_ticket_request(
    r: ZammadUpdateTicketRequest,
    webhook: JiraWebhook,
) -> bool {
    &&& r.title@ == (match webhook.jira_webhook_issue {
        Some(issue) => issue.fields.summary@,
        None => Seq::<char>::empty(),
    })
    &&& r.state == spec_final_state(spec_changelog_items(webhook))
    &&& r.priority.id == spec_final_priority(spec_changelog_items(webhook))
}

impl ZammadUpdateTicketRequest {
    /// Builds the update request for a reverse-direction event by
    /// scanning the changelog for `status` and `priority` changes and
    /// applying the last matching entry of each (payload order; no
    /// stronger ordering is guaranteed by the sender).
    pub fn from_jira_webhook(webhook: &JiraWebhook) -> (r: Self)
        ensures
            spec_update_source_ticket_request(r, *webhook),
    {
        let mut state = ZammadState::Open;
        let mut priority = ZammadPriority { id: ZammadPriorityId::Normal };

        match &webhook.jira_webhook_changelog {
            Some(changelog) => {
                let n = changelog.items.len();
                let mut i: usize = 0;
                while i < n
                    invariant
                        n == changelog.items@.len(),
                        i <= n,
                        state == spec_final_state(changelog.items@.take(i as int)),
                        priority.id == spec_final_priority(changelog.items@.take(i as int)),
                    decreases n - i,
                {
                    proof {
                        reveal_strlit("status");
                        reveal_strlit("priority");
                        assert("status"@ != "priority"@) by {
                            assert("status"@.len() == 6);
                            assert("priority"@.len() == 8);
                        }
                    }
                    let item = &changelog.items[i];
                    if str_eq(item.field.as_str(), "status") {
                        state = target_change_to_source_state(item.toString.as_str());
                    } else if str_eq(item.field.as_str(), "priority") {
                        priority.id = target_change_to_source_priority(item.toString.as_str());
                    }
                    proof {
                        assert(changelog.items@.take(i + 1).drop_last() =~= changelog.items@.take(
                            i as int,
                        ));
                        assert(changelog.items@.take(i + 1).last() == changelog.items@[i as int]);
                    }
                    i = i + 1;
                }
                proof {
                    assert(changelog.items@.take(n as int) =~= changelog.items@);
                }
            },
            None => {
            },
        }

        let title = match &webhook.jira_webhook_issue {
            Some(issue) => issue.fields.summary.clone(),
            None => String::new(),
        };

        Self { title, state, priority }
    }
}

/// An add-comment request body for the source API.
#[derive(Debug, Clone)]
pub struct ZammadAddCommentRequest {
    pub body: String,
    pub content_type: String,
    pub sender: String,
}

impl ZammadAddCommentRequest {
    /// Builds the add-comment request: a pass-through of the tracker
    /// comment's text, marked plain text, attributed to its author's
    /// display name.
    pub fn from_jira_comment(comment: &JiraWebhookComment) -> (r: Self)
        ensures
            r.body@ == comment.body@,
            r.content_type@ == "text/plain"@,
            r.sender@ == comment.author.displayName@,
    {
        Self {
            body: comment.body.clone(),
            content_type: String::from_str("text/plain"),
            sender: comment.author.displayName.clone(),
        }
    }
}

} // verus!
