//! The resolution rules the hook promises, stated once over the state's
//! model and proved for every state.

use vstd::prelude::*;

use crate::addr::Address;
use crate::state::RoutingState;

verus! {

/// For a domain with no override entry, resolution yields exactly the
/// fallback slot's content: the configured fallback hook, or nothing when
/// the slot was never set.
pub proof fn law_no_override_uses_fallback(state: RoutingState, domain: u32)
    requires
        !state.routes@.contains_key(domain),
    ensures
        state.spec_resolve(domain) == state.fallback,
{
}

/// For a domain with an override entry, resolution yields that entry,
/// whatever the fallback slot holds: the override always wins.
pub proof fn law_override_wins(state: RoutingState, domain: u32)
    requires
        state.routes@.contains_key(domain),
    ensures
        state.spec_resolve(domain) == Some(state.routes@[domain]),
        forall|f: Option<Address>| #[trigger] (RoutingState { fallback: f, ..state }).spec_resolve(
            domain,
        ) == Some(state.routes@[domain]),
{
}

/// Setting the fallback hook twice with the same address leaves every
/// domain resolving exactly as after setting it once.
pub proof fn law_set_fallback_idempotent(
    state: RoutingState,
    once: Address,
    again: Address,
    domain: u32,
)
    requires
        once@ == again@,
    ensures
        state.with_fallback(once).with_fallback(again).resolved_view(domain) == state.with_fallback(
            once,
        ).resolved_view(domain),
{
}

} // verus!
