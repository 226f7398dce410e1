//! The values the hook exchanges with its surroundings: request and query
//! tags, outbound calls to downstream hooks, audit events, and query
//! responses. The environment turns these into its own wire format; the
//! library only decides their content.

use vstd::prelude::*;

use crate::addr::Address;
use crate::message::keccak256_of;
use crate::message::spec_dec;
use crate::message::spec_hex;
use crate::message::DecodedMessage;

verus! {

/// One key/value pair of an audit event.
#[derive(Debug)]
pub struct Attribute {
    pub key: String,
    pub value: String,
}

/// An audit event recorded alongside an operation's effects.
#[derive(Debug)]
pub struct AuditEvent {
    /// The event's type tag.
    pub kind: String,
    /// The event's attributes, in order.
    pub attributes: Vec<Attribute>,
}

/// A single outbound "finalize dispatch" call addressed to a resolved
/// hook. It carries the raw message bytes and metadata unchanged and
/// attaches no funds.
#[derive(Debug)]
pub struct OutboundCall {
    /// The hook the call is addressed to.
    pub hook: Address,
    /// The raw message envelope, forwarded unchanged.
    pub message: Vec<u8>,
    /// The caller's metadata, forwarded unchanged.
    pub metadata: Vec<u8>,
}

/// Everything a successful dispatch produces: exactly one outbound call
/// and one audit event.
#[derive(Debug)]
pub struct DispatchOutcome {
    pub call: OutboundCall,
    pub event: AuditEvent,
}

/// A read-only "quote dispatch" query addressed to a resolved hook, with
/// the message and metadata forwarded unchanged.
#[derive(Debug)]
pub struct QuoteQuery {
    pub hook: Address,
    pub message: Vec<u8>,
    pub metadata: Vec<u8>,
}

/// One fee entry a hook reports: a denomination and an amount.
#[derive(Debug)]
pub struct FeeEntry {
    pub denom: String,
    pub amount: u128,
}

/// The fee list a quoted hook returned, verbatim.
#[derive(Debug)]
pub struct QuoteResponse {
    pub fees: Vec<FeeEntry>,
}

/// The answer to the mailbox query: this hook restricts no mailbox.
#[derive(Debug)]
pub struct MailboxResponse {
    pub mailbox: String,
}

/// A state-changing request, by tag.
pub enum ExecuteMsg {
    /// Replace the fallback hook; only the owner may.
    SetFallbackHook { hook: String },
    /// Set or clear a domain's override entry; only the owner may.
    SetRoute { domain: u32, route: Option<String> },
    /// Forward a message to its resolved hook.
    PostDispatch { message: Vec<u8>, metadata: Vec<u8> },
}

/// A read-only request, by tag.
pub enum QueryMsg {
    /// Which mailbox this hook is restricted to.
    Mailbox,
    /// What the resolved hook would charge for a message.
    QuoteDispatch { message: Vec<u8>, metadata: Vec<u8> },
    /// The current fallback hook.
    FallbackHook,
    /// A domain's override entry.
    Route { domain: u32 },
    /// The current owner.
    Owner,
}

/// What a state-changing request produced.
pub enum ExecuteOutcome {
    /// The fallback hook was replaced; the event records it.
    FallbackSet(AuditEvent),
    /// An override entry was set or cleared.
    RouteSet,
    /// A message was forwarded.
    Dispatched(DispatchOutcome),
}

/// What a read-only request produced.
pub enum QueryOutcome {
    Mailbox(MailboxResponse),
    Quote(QuoteQuery),
    FallbackHook(Address),
    Route(Option<Address>),
    Owner(Address),
}

/// A decoded message beside the hook its destination resolved to.
#[derive(Debug)]
pub struct RoutedMessage {
    pub message: DecodedMessage,
    pub hook: Address,
}

/// What the audit event of a successful `set_fallback_hook` records: the
/// caller and the new fallback hook.
pub open spec fn set_fallback_event_ok(sender: Seq<char>, hook: Seq<char>, ev: AuditEvent) -> bool {
    &&& ev.kind@ == "hpl_hook_routing::set_fallback_hook"@
    &&& ev.attributes@.len() == 2
    &&& ev.attributes@[0].key@ == "sender"@
    &&& ev.attributes@[0].value@ == sender
    &&& ev.attributes@[1].key@ == "fallback-hook"@
    &&& ev.attributes@[1].value@ == hook
}

/// What the audit event of a successful `instantiate` records: the caller
/// and the new owner.
pub open spec fn initialize_event_ok(sender: Seq<char>, owner: Seq<char>, ev: AuditEvent) -> bool {
    &&& ev.kind@ == "hpl_hook_routing::initialize"@
    &&& ev.attributes@.len() == 2
    &&& ev.attributes@[0].key@ == "sender"@
    &&& ev.attributes@[0].value@ == sender
    &&& ev.attributes@[1].key@ == "owner"@
    &&& ev.attributes@[1].value@ == owner
}

/// What the audit event of a successful `post_dispatch` records: the
/// decoded destination domain in decimal, the resolved hook, and the
/// message identifier in hexadecimal.
pub open spec fn post_dispatch_event_ok(
    domain: u32,
    route: Seq<char>,
    message: Seq<u8>,
    ev: AuditEvent,
) -> bool {
    &&& ev.kind@ == "hpl_hook_routing::post_dispatch"@
    &&& ev.attributes@.len() == 3
    &&& ev.attributes@[0].key@ == "domain"@
    &&& ev.attributes@[0].value@ == spec_dec(domain as int)
    &&& ev.attributes@[1].key@ == "route"@
    &&& ev.attributes@[1].value@ == route
    &&& ev.attributes@[2].key@ == "message_id"@
    &&& ev.attributes@[2].value@ == spec_hex(keccak256_of(message))
}

/// Builds one event attribute.
pub fn attr(key: &str, value: String) -> (r: Attribute)
    ensures
        r.key@ == key@,
        r.value == value,
{
    Attribute { key: key.to_owned(), value }
}

} // verus!
