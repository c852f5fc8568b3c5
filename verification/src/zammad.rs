//! Domain model of the source (helpdesk) system: ticket snapshots as they
//! arrive on a webhook, reduced to the plain fields the synchronization
//! logic reads.

use vstd::prelude::*;

use crate::date::Date;
use crate::text::str_eq;

verus! {

/// A webhook payload: the ticket snapshot plus the article (comment or
/// message) that accompanied the triggering event.
#[derive(Debug, Clone)]
pub struct ZammadWebhook {
    /// The ticket information including state and relationships.
    pub ticket: ZammadTicket,
    /// The article associated with this ticket event.
    pub article: ZammadArticle,
}

/// The subset of a source ticket's state that translation reads.
#[derive(Debug, Clone)]
pub struct ZammadTicket {
    /// Unique identifier of the ticket in the source system.
    pub id: i32,
    /// Human-readable ticket number.
    pub number: String,
    /// The ticket's title, mirrored as the issue summary.
    pub title: String,
    /// The binary lifecycle state.
    pub state: ZammadState,
    /// Priority information.
    pub priority: ZammadPriority,
    /// Due date, mirrored as the issue's due date.
    pub due_date: Date,
    /// User who created the ticket.
    pub created_by: ZammadUser,
    /// User the ticket is assigned to.
    pub owner: ZammadUser,
}

impl ZammadWebhook {
    /// A payload the builders accept: the due date is a calendar date.
    pub open spec fn wf(self) -> bool {
        self.ticket.due_date.wf()
    }
}

/// Priority wrapper as the webhook payload carries it.
#[derive(Debug, Clone, Copy, PartialEq, Eq, Structural)]
pub struct ZammadPriority {
    pub id: ZammadPriorityId,
}

/// The source system's closed three-level priority vocabulary.
#[derive(Debug, Clone, Copy, PartialEq, Eq, Structural)]
pub enum ZammadPriorityId {
    Low,
    Normal,
    High,
}

/// The source system's binary lifecycle state.
#[derive(Debug, Clone, Copy, PartialEq, Eq, Structural)]
pub enum ZammadState {
    Open,
    Closed,
}

impl ZammadState {
    /// Parses the state labels the source system uses; anything but
    /// `open` and `closed` is rejected with a message naming the input.
    pub fn from_str(state: String) -> (r: Result<ZammadState, String>)
        ensures
            state@ == "open"@ ==> r == Ok::<ZammadState, String>(ZammadState::Open),
            state@ == "closed"@ ==> r == Ok::<ZammadState, String>(ZammadState::Closed),
            state@ != "open"@ && state@ != "closed"@ ==> (r matches Err(m) && m@ == "Invalid state: "@
                + state@),
    {
        proof {
            reveal_strlit("open");
            reveal_strlit("closed");
            assert("open"@ != "closed"@) by {
                assert("open"@.len() == 4);
                assert("closed"@.len() == 6);
            }
        }
        if str_eq(state.as_str(), "open") {
            Ok(ZammadState::Open)
        } else if str_eq(state.as_str(), "closed") {
            Ok(ZammadState::Closed)
        } else {
            Err(String::from_str("Invalid state: ").concat(state.as_str()))
        }
    }
}

/// A source-system user, reduced to plain contact fields.
#[derive(Debug, Clone)]
pub struct ZammadUser {
    /// Unique identifier of the user.
    pub id: u64,
    /// Email address, also used as login.
    pub email: String,
    /// First name.
    pub firstname: String,
    /// Last name.
    pub lastname: String,
}

/// An article (comment or message) on a source ticket.
#[derive(Debug, Clone)]
pub struct ZammadArticle {
    /// Unique identifier of the article.
    pub id: Option<u64>,
    /// Ticket the article belongs to.
    pub ticket_id: Option<u64>,
    /// The message body; its absence signals that there is nothing to
    /// mirror as a comment.
    pub body: Option<String>,
    /// MIME type of the body.
    pub content_type: Option<String>,
    /// Who sent the article.
    pub sender: Option<String>,
    /// Optional sender display field.
    pub from: Option<String>,
    /// Optional recipient display field.
    pub to: Option<String>,
}

} // verus!
