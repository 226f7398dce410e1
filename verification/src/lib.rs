//! A routing hook with a fallback: each outbound message is forwarded to the
//! hook registered for its destination domain, or to a configured fallback
//! hook when no override exists.

mod addr;
mod error;
mod laws;
mod message;
mod msg;
mod ops;
mod state;

pub use addr::addr_byte;
pub use addr::valid_addr;
pub use addr::Address;
pub use error::ContractError;
pub use laws::law_no_override_uses_fallback;
pub use laws::law_override_wins;
pub use laws::law_set_fallback_idempotent;
pub use message::dec_string;
pub use message::decode_message;
pub use message::hex_digit;
pub use message::hex_string;
pub use message::keccak256_of;
pub use message::spec_dec;
pub use message::spec_dest_domain;
pub use message::spec_hex;
pub use message::spec_u32_be;
pub use message::DecodedMessage;
pub use message::DEST_DOMAIN_OFFSET;
pub use message::HEADER_LEN;
pub use msg::initialize_event_ok;
pub use msg::post_dispatch_event_ok;
pub use msg::set_fallback_event_ok;
pub use msg::Attribute;
pub use msg::AuditEvent;
pub use msg::DispatchOutcome;
pub use msg::ExecuteMsg;
pub use msg::ExecuteOutcome;
pub use msg::FeeEntry;
pub use msg::MailboxResponse;
pub use msg::OutboundCall;
pub use msg::QueryMsg;
pub use msg::QueryOutcome;
pub use msg::QuoteQuery;
pub use msg::QuoteResponse;
pub use msg::RoutedMessage;
pub use ops::dispatch_outcome_ok;
pub use ops::execute;
pub use ops::get_mailbox;
pub use ops::instantiate;
pub use ops::post_dispatch;
pub use ops::query;
pub use ops::quote_dispatch;
pub use ops::quote_query_ok;
pub use ops::quote_response;
pub use ops::route;
pub use ops::route_error;
pub use ops::route_fails;
pub use state::RoutingState;
