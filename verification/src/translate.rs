//! Field translator: total, deterministic lookup tables between the two
//! systems' priority and lifecycle vocabularies.  Defined once, as tables,
//! never inferred.

use vstd::prelude::*;

use crate::jira::{spec_status_label, JiraPriorityEnum, JiraStatus};
use crate::text::{lower, lower_char};
use crate::zammad::{ZammadPriorityId, ZammadState};
use crate::zammad_api::spec_state_of_label;

verus! {

/// The fixed 3-to-5 priority table: low maps to lowest, normal to medium,
/// high to high.
pub open spec fn spec_priority_to_jira(priority: ZammadPriorityId) -> JiraPriorityEnum {
    match priority {
        ZammadPriorityId::Low => JiraPriorityEnum::Lowest,
        ZammadPriorityId::Normal => JiraPriorityEnum::Medium,
        ZammadPriorityId::High => JiraPriorityEnum::High,
    }
}

/// The fixed 2-way lifecycle table: open maps to open, closed to closed.
pub open spec fn spec_state_to_jira(state: ZammadState) -> JiraStatus {
    match state {
        ZammadState::Open => JiraStatus::Open,
        ZammadState::Closed => JiraStatus::Closed,
    }
}

/// Translates a source priority into the target vocabulary.
pub fn convert_zammad_priority_to_jira_priority(priority: ZammadPriorityId) -> (r: JiraPriorityEnum)
    ensures
        r == spec_priority_to_jira(priority),
{
    match priority {
        ZammadPriorityId::Low => JiraPriorityEnum::Lowest,
        ZammadPriorityId::Normal => JiraPriorityEnum::Medium,
        ZammadPriorityId::High => JiraPriorityEnum::High,
    }
}

/// Translates a source lifecycle state into the target vocabulary; applied
/// only on update paths, never at creation.
pub fn convert_zammad_state_to_jira_status(state: ZammadState) -> (r: JiraStatus)
    ensures
        r == spec_state_to_jira(state),
{
    match state {
        ZammadState::Open => JiraStatus::Open,
        ZammadState::Closed => JiraStatus::Closed,
    }
}

/// Law: the priority translation is total on the source's three-level
/// domain and lands inside the target's five-level domain; being a
/// function of the priority alone, it returns the same target level on
/// every call with the same source level.
pub proof fn lemma_priority_translation_in_target_domain(priority: ZammadPriorityId)
    ensures
        spec_priority_to_jira(priority) == JiraPriorityEnum::Lowest
            || spec_priority_to_jira(priority) == JiraPriorityEnum::Medium
            || spec_priority_to_jira(priority) == JiraPriorityEnum::High,
{
}

/// Law: translating a source lifecycle state into the target vocabulary
/// and translating the resulting status's display label back yields the
/// original state, for both open and closed.
pub proof fn lemma_state_round_trip(state: ZammadState)
    ensures
        spec_state_of_label(spec_status_label(spec_state_to_jira(state))) == state,
{
    reveal_strlit("Open");
    reveal_strlit("Closed");
    reveal_strlit("done");
    reveal_strlit("closed");
    reveal_strlit("resolved");
    match state {
        ZammadState::Open => {
            assert(lower("Open"@).len() == 4);
            assert(lower("Open"@) != "done"@) by {
                assert(lower("Open"@)[0] == lower_char('O'));
                assert("done"@[0] == 'd');
            }
            assert(lower("Open"@) != "closed"@) by {
                assert("closed"@.len() == 6);
            }
            assert(lower("Open"@) != "resolved"@) by {
                assert("resolved"@.len() == 8);
            }
        },
        ZammadState::Closed => {
            assert(lower("Closed"@) =~= "closed"@) by {
                assert(lower("Closed"@).len() == 6);
                assert(lower("Closed"@)[0] == lower_char('C'));
                assert(lower("Closed"@)[1] == lower_char('l'));
                assert(lower("Closed"@)[2] == lower_char('o'));
                assert(lower("Closed"@)[3] == lower_char('s'));
                assert(lower("Closed"@)[4] == lower_char('e'));
                assert(lower("Closed"@)[5] == lower_char('d'));
            }
        },
    }
}

} // verus!
