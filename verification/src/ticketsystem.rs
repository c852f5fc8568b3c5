//! Which ticket system an inbound request addresses, as a closed tagged
//! union resolved once at the ingestion boundary, so that every handler
//! dispatches over it exhaustively.

use vstd::prelude::*;

use crate::text::str_eq;

verus! {

/// The two systems the bridge connects.
#[derive(Debug, Clone, Copy, PartialEq, Eq, Structural)]
pub enum TicketSystem {
    /// The source (helpdesk) system.
    Zammad,
    /// The target (issue tracker) system.
    Jira,
}

/// The routing label of each system.
pub open spec fn spec_system_name(system: TicketSystem) -> Seq<char> {
    match system {
        TicketSystem::Zammad => "zammad"@,
        TicketSystem::Jira => "jira"@,
    }
}

impl TicketSystem {
    /// The label under which the system is routed.
    pub fn name(&self) -> (r: &'static str)
        ensures
            r@ == spec_system_name(*self),
    {
        match self {
            TicketSystem::Zammad => "zammad",
            TicketSystem::Jira => "jira",
        }
    }
}

/// Resolves a routing label to the system it names; an unknown label is
/// not routed.
pub fn create_ticket_system(system_type: &str) -> (r: Option<TicketSystem>)
    ensures
        system_type@ == "zammad"@ ==> r == Some(TicketSystem::Zammad),
        system_type@ == "jira"@ ==> r == Some(TicketSystem::Jira),
        system_type@ != "zammad"@ && system_type@ != "jira"@ ==> r == None::<TicketSystem>,
{
    proof {
        reveal_strlit("zammad");
        reveal_strlit("jira");
        assert("zammad"@ != "jira"@) by {
            assert("zammad"@.len() == 6);
            assert("jira"@.len() == 4);
        }
    }
    if str_eq(system_type, "zammad") {
        Some(TicketSystem::Zammad)
    } else if str_eq(system_type, "jira") {
        Some(TicketSystem::Jira)
    } else {
        None
    }
}

} // verus!
