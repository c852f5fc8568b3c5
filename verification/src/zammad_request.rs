//! The shape of a create-ticket request against the source (helpdesk)
//! API.  No creation is ever initiated from the reverse direction —
//! every assignment originates from a source-side creation event — so
//! nothing builds these today; they document the source API's create
//! contract.

use vstd::prelude::*;

verus! {

/// A create-ticket request body for the source API.
#[derive(Debug, Clone)]
pub struct ZammadCreateTicketRequest {
    pub title: String,
    pub customer: String,
    pub group: String,
    pub article: ZammadCreateTicketArticle,
}

/// The first article of a created ticket.
#[derive(Debug, Clone)]
pub struct ZammadCreateTicketArticle {
    pub body: String,
    pub subject: String,
    pub kind: String,
    pub internal: bool,
}

} // verus!
