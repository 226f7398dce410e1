//! The hook's operations: initialization, route resolution for a raw
//! message, dispatch forwarding, fee quoting, and the request routers that
//! dispatch by tag.

use vstd::prelude::*;

use crate::addr::valid_addr;
use crate::addr::Address;
use crate::error::ContractError;
use crate::message::decode_message;
use crate::message::dec_string;
use crate::message::hex_string;
use crate::message::spec_dest_domain;
use crate::message::HEADER_LEN;
use crate::msg::attr;
use crate::msg::initialize_event_ok;
use crate::msg::post_dispatch_event_ok;
use crate::msg::set_fallback_event_ok;
use crate::msg::Attribute;
use crate::msg::AuditEvent;
use crate::msg::DispatchOutcome;
use crate::msg::ExecuteMsg;
use crate::msg::ExecuteOutcome;
use crate::msg::FeeEntry;
use crate::msg::MailboxResponse;
use crate::msg::OutboundCall;
use crate::msg::QueryMsg;
use crate::msg::QueryOutcome;
use crate::msg::QuoteQuery;
use crate::msg::QuoteResponse;
use crate::msg::RoutedMessage;
use crate::state::RoutingState;

verus! {

/// Why `route` failed on a given state and message: the envelope was too
/// short, or nothing is configured for its destination domain.
pub open spec fn route_fails(state: RoutingState, message: Seq<u8>) -> bool {
    message.len() < HEADER_LEN || state.spec_resolve(spec_dest_domain(message)) is None
}

/// The error `route` reports when it fails.
pub open spec fn route_error(state: RoutingState, message: Seq<u8>, e: ContractError) -> bool {
    if message.len() < HEADER_LEN {
        e == ContractError::ValidationError
    } else {
        e == ContractError::NotConfigured
    }
}

/// What a successful dispatch holds: one call to the resolved hook with
/// the message and metadata unchanged, and the audit event describing it.
pub open spec fn dispatch_outcome_ok(
    state: RoutingState,
    message: Seq<u8>,
    metadata: Seq<u8>,
    out: DispatchOutcome,
) -> bool {
    let domain = spec_dest_domain(message);
    &&& state.resolved_view(domain) == Some(out.call.hook@)
    &&& out.call.message@ == message
    &&& out.call.metadata@ == metadata
    &&& post_dispatch_event_ok(domain, out.call.hook@, message, out.event)
}

/// What a successful quote holds: one query to the resolved hook with the
/// message and metadata unchanged.
pub open spec fn quote_query_ok(
    state: RoutingState,
    message: Seq<u8>,
    metadata: Seq<u8>,
    q: QuoteQuery,
) -> bool {
    &&& state.resolved_view(spec_dest_domain(message)) == Some(q.hook@)
    &&& q.message@ == message
    &&& q.metadata@ == metadata
}

/// Records the owner at creation. The environment calls this once, when
/// the hook instance is created.
pub fn instantiate(state: &mut RoutingState, sender: &Address, owner: &str) -> (r: Result<
    AuditEvent,
    ContractError,
>)
    ensures
        valid_addr(owner@) ==> r is Ok && (final(state).owner matches Some(o) && o@ == owner@)
            && final(state).fallback == old(state).fallback && final(state).routes == old(state).routes,
        !valid_addr(owner@) ==> *final(state) == *old(state) && (r matches Err(e) && e
            == ContractError::ValidationError),
        r matches Ok(ev) ==> initialize_event_ok(sender@, owner@, ev),
        old(state).wf() ==> final(state).wf(),
{
    let owner_addr = match Address::validate(owner) {
        Ok(a) => a,
        Err(e) => {
            return Err(e);
        },
    };
    state.owner = Some(owner_addr);
    let mut attributes: Vec<Attribute> = Vec::new();
    attributes.push(attr("sender", sender.to_text()));
    attributes.push(attr("owner", owner.to_owned()));
    Ok(AuditEvent { kind: String::from_str("hpl_hook_routing::initialize"), attributes })
}

/// Decodes a raw message and resolves the hook for its destination
/// domain: the domain's override entry if one exists, else the fallback.
pub fn route(state: &RoutingState, message: &Vec<u8>) -> (r: Result<RoutedMessage, ContractError>)
    ensures
        r is Err <==> route_fails(*state, message@),
        r matches Err(e) ==> route_error(*state, message@, e),
        r matches Ok(p) ==> {
            &&& p.message.dest_domain == spec_dest_domain(message@)
            &&& p.message.id@ == crate::message::keccak256_of(message@)
            &&& state.resolved_view(p.message.dest_domain) == Some(p.hook@)
        },
{
    let decoded = match decode_message(message) {
        Ok(m) => m,
        Err(e) => {
            return Err(e);
        },
    };
    let hook = match state.resolve_route(decoded.dest_domain) {
        Ok(a) => a,
        Err(e) => {
            return Err(e);
        },
    };
    Ok(RoutedMessage { message: decoded, hook })
}

/// Forwards a message: resolves its route and produces exactly one
/// outbound "post dispatch" call to the resolved hook, with the message
/// bytes and metadata unchanged and no funds attached, beside an audit
/// event recording domain, route and message identifier.
pub fn post_dispatch(state: &RoutingState, message: &Vec<u8>, metadata: &Vec<u8>) -> (r: Result<
    DispatchOutcome,
    ContractError,
>)
    ensures
        r is Err <==> route_fails(*state, message@),
        r matches Err(e) ==> route_error(*state, message@, e),
        r matches Ok(out) ==> dispatch_outcome_ok(*state, message@, metadata@, out),
{
    let routed = match route(state, message) {
        Ok(p) => p,
        Err(e) => {
            return Err(e);
        },
    };
    let mut attributes: Vec<Attribute> = Vec::new();
    attributes.push(attr("domain", dec_string(routed.message.dest_domain)));
    attributes.push(attr("route", routed.hook.to_text()));
    attributes.push(attr("message_id", hex_string(&routed.message.id)));
    let event = AuditEvent {
        kind: String::from_str("hpl_hook_routing::post_dispatch"),
        attributes,
    };
    let call = OutboundCall { hook: routed.hook, message: message.clone(), metadata: metadata.clone() };
    Ok(DispatchOutcome { call, event })
}

/// Prices a message: resolves its route and produces the read-only
/// "quote dispatch" query for the resolved hook, with the message bytes
/// and metadata unchanged. The environment performs the query; its answer
/// is returned verbatim through `quote_response`.
pub fn quote_dispatch(state: &RoutingState, message: &Vec<u8>, metadata: &Vec<u8>) -> (r: Result<
    QuoteQuery,
    ContractError,
>)
    ensures
        r is Err <==> route_fails(*state, message@),
        r matches Err(e) ==> route_error(*state, message@, e),
        r matches Ok(q) ==> quote_query_ok(*state, message@, metadata@, q),
{
    let routed = match route(state, message) {
        Ok(p) => p,
        Err(e) => {
            return Err(e);
        },
    };
    Ok(QuoteQuery { hook: routed.hook, message: message.clone(), metadata: metadata.clone() })
}

/// Dispatches a state-changing request by tag to the operation that
/// handles it.
pub fn execute(state: &mut RoutingState, sender: &Address, msg: ExecuteMsg) -> (r: Result<
    ExecuteOutcome,
    ContractError,
>)
    ensures
        old(state).wf() ==> final(state).wf(),
        match msg {
            ExecuteMsg::SetFallbackHook { hook } => {
                &&& (old(state).owner is None ==> *final(state) == *old(state) && (r matches Err(e)
                    && e == ContractError::NotConfigured))
                &&& (!old(state).spec_is_owner(sender@) && old(state).owner is Some ==> *final(state) == *old(state) && (r matches Err(e) && e == ContractError::Unauthorized))
                &&& (old(state).spec_is_owner(sender@) && !valid_addr(hook@) ==> *final(state)
                    == *old(state) && (r matches Err(e) && e == ContractError::ValidationError))
                &&& (old(state).spec_is_owner(sender@) && valid_addr(hook@) ==> r is Ok && (final(state).fallback matches Some(a) && a@ == hook@ && *final(state) == old(state).with_fallback(a)))
                &&& (r matches Ok(o) ==> o matches ExecuteOutcome::FallbackSet(ev)
                    && set_fallback_event_ok(sender@, hook@, ev))
            },
            ExecuteMsg::SetRoute { domain, route } => {
                &&& (old(state).owner is None ==> *final(state) == *old(state) && (r matches Err(e)
                    && e == ContractError::NotConfigured))
                &&& (!old(state).spec_is_owner(sender@) && old(state).owner is Some ==> *final(state) == *old(state) && (r matches Err(e) && e == ContractError::Unauthorized))
                &&& (old(state).spec_is_owner(sender@) ==> match route {
                    Some(h) => if valid_addr(h@) {
                        r is Ok && final(state).routes@.contains_key(domain)
                            && final(state).routes@[domain]@ == h@
                            && final(state).routes@
                            == old(state).routes@.insert(domain, final(state).routes@[domain])
                    } else {
                        *final(state) == *old(state) && (r matches Err(e) && e
                            == ContractError::ValidationError)
                    },
                    None => r is Ok && final(state).routes@ == old(state).routes@.remove(domain),
                })
                &&& (r is Ok ==> final(state).owner == old(state).owner && final(state).fallback
                    == old(state).fallback)
                &&& (r matches Ok(o) ==> o is RouteSet)
            },
            ExecuteMsg::PostDispatch { message, metadata } => {
                &&& *final(state) == *old(state)
                &&& (r is Err <==> route_fails(*old(state), message@))
                &&& (r matches Err(e) ==> route_error(*old(state), message@, e))
                &&& (r matches Ok(o) ==> o matches ExecuteOutcome::Dispatched(out)
                    && dispatch_outcome_ok(*old(state), message@, metadata@, out))
            },
        },
{
    match msg {
        ExecuteMsg::SetFallbackHook { hook } => {
            match state.set_fallback_hook(sender, hook.as_str()) {
                Ok(ev) => Ok(ExecuteOutcome::FallbackSet(ev)),
                Err(e) => Err(e),
            }
        },
        ExecuteMsg::SetRoute { domain, route } => {
            let route_ref: Option<&str> = match &route {
                Some(h) => Some(h.as_str()),
                None => None,
            };
            match state.set_route(sender, domain, route_ref) {
                Ok(_) => Ok(ExecuteOutcome::RouteSet),
                Err(e) => Err(e),
            }
        },
        ExecuteMsg::PostDispatch { message, metadata } => {
            match post_dispatch(&*state, &message, &metadata) {
                Ok(out) => Ok(ExecuteOutcome::Dispatched(out)),
                Err(e) => Err(e),
            }
        },
    }
}

/// Dispatches a read-only request by tag to the operation that answers
/// it.
pub fn query(state: &RoutingState, msg: QueryMsg) -> (r: Result<QueryOutcome, ContractError>)
    ensures
        match msg {
            QueryMsg::Mailbox => r matches Ok(o) && o matches QueryOutcome::Mailbox(m)
                && m.mailbox@ == "unrestricted"@,
            QueryMsg::QuoteDispatch { message, metadata } => {
                &&& (r is Err <==> route_fails(*state, message@))
                &&& (r matches Err(e) ==> route_error(*state, message@, e))
                &&& (r matches Ok(o) ==> o matches QueryOutcome::Quote(q) && quote_query_ok(
                    *state,
                    message@,
                    metadata@,
                    q,
                ))
            },
            QueryMsg::FallbackHook => {
                &&& (r is Err <==> state.fallback is None)
                &&& (r matches Err(e) ==> e == ContractError::NotConfigured)
                &&& (r matches Ok(o) ==> o matches QueryOutcome::FallbackHook(a) && (
                state.fallback matches Some(f) && a@ == f@))
            },
            QueryMsg::Route { domain } => r matches Ok(o) && o matches QueryOutcome::Route(entry)
                && match entry {
                Some(a) => state.routes@.contains_key(domain) && a@ == state.routes@[domain]@,
                None => !state.routes@.contains_key(domain),
            },
            QueryMsg::Owner => {
                &&& (r is Err <==> state.owner is None)
                &&& (r matches Err(e) ==> e == ContractError::NotConfigured)
                &&& (r matches Ok(o) ==> o matches QueryOutcome::Owner(a) && (
                state.owner matches Some(w) && a@ == w@))
            },
        },
{
    match msg {
        QueryMsg::Mailbox => Ok(QueryOutcome::Mailbox(get_mailbox())),
        QueryMsg::QuoteDispatch { message, metadata } => {
            match quote_dispatch(state, &message, &metadata) {
                Ok(q) => Ok(QueryOutcome::Quote(q)),
                Err(e) => Err(e),
            }
        },
        QueryMsg::FallbackHook => {
            match state.get_fallback_hook() {
                Ok(a) => Ok(QueryOutcome::FallbackHook(a)),
                Err(e) => Err(e),
            }
        },
        QueryMsg::Route { domain } => Ok(QueryOutcome::Route(state.get_route(domain))),
        QueryMsg::Owner => {
            match state.get_owner() {
                Ok(a) => Ok(QueryOutcome::Owner(a)),
                Err(e) => Err(e),
            }
        },
    }
}

/// Wraps the fee list a quoted hook answered with, unchanged.
pub fn quote_response(fees: Vec<FeeEntry>) -> (r: QuoteResponse)
    ensures
        r.fees == fees,
{
    QuoteResponse { fees }
}

/// This hook restricts no mailbox: the answer is a constant sentinel.
pub fn get_mailbox() -> (r: MailboxResponse)
    ensures
        r.mailbox@ == "unrestricted"@,
{
    MailboxResponse { mailbox: String::from_str("unrestricted") }
}

} // verus!
