use routing_fallback_hook::Address;
use routing_fallback_hook::ContractError;
use routing_fallback_hook::ExecuteMsg;
use routing_fallback_hook::ExecuteOutcome;
use routing_fallback_hook::FeeEntry;
use routing_fallback_hook::QueryMsg;
use routing_fallback_hook::QueryOutcome;
use routing_fallback_hook::QuoteQuery;
use routing_fallback_hook::QuoteResponse;
use routing_fallback_hook::RoutingState;
use routing_fallback_hook::{
    dec_string, get_mailbox, hex_string, instantiate, post_dispatch, query, quote_dispatch,
    quote_response, route,
};

use sha3::Digest;
use sha3::Keccak256;

const OWNER: &str = "owner";
const DEPLOYER: &str = "deployer";
const MAILBOX: &str = "mailbox";
const FALLBACK_HOOK: &str = "fallbackhook";

const ROUTE1: (u32, &str) = (26657, "route1");
const ROUTE2: (u32, &str) = (26658, "route2");

fn addr(s: &str) -> Address {
    Address::validate(s).unwrap()
}

/// A 100-byte message envelope whose destination domain field holds the
/// given value; the remaining bytes hold a fixed pattern.
fn make_message(dest_domain: u32) -> Vec<u8> {
    let mut bytes: Vec<u8> = (0..100u32).map(|i| (i * 7 % 256) as u8).collect();
    bytes[41..45].copy_from_slice(&dest_domain.to_be_bytes());
    bytes
}

fn keccak_hex(bytes: &[u8]) -> String {
    let mut hasher = Keccak256::new();
    hasher.update(bytes);
    hasher
        .finalize()
        .iter()
        .map(|b| format!("{:02x}", b))
        .collect()
}

/// A state as the environment would build it: instantiated by the
/// deployer for the owner, with the fallback hook configured.
fn deps() -> RoutingState {
    let mut state = RoutingState::new();
    instantiate(&mut state, &addr(DEPLOYER), OWNER).unwrap();
    state
        .set_fallback_hook(&addr(OWNER), FALLBACK_HOOK)
        .unwrap();
    state
}

/// The state of `deps`, with the two standard overrides registered.
fn deps_routes() -> RoutingState {
    let mut state = deps();
    for (domain, hook) in [ROUTE1, ROUTE2] {
        state
            .set_route(&addr(OWNER), domain, Some(hook))
            .unwrap();
    }
    state
}

/// What the downstream hooks of the quote scenario answer: the override
/// hook reports a fee parsed big-endian from the metadata, the fallback
/// hook reports no fee.
fn simulated_hook_answer(q: &QuoteQuery) -> QuoteResponse {
    let mut fees: Vec<FeeEntry> = Vec::new();
    if !q.metadata.is_empty() && q.hook.as_str() != FALLBACK_HOOK {
        let parsed = u32::from_be_bytes(q.metadata.as_slice().try_into().unwrap());
        fees.push(FeeEntry {
            denom: "utest".to_string(),
            amount: parsed as u128,
        });
    }
    quote_response(fees)
}

#[test]
fn test_init() {
    let state = deps();
    match query(&state, QueryMsg::Owner).unwrap() {
        QueryOutcome::Owner(o) => assert_eq!(OWNER, o.as_str()),
        _ => panic!("wrong query outcome"),
    }
}

#[test]
fn test_init_event() {
    let mut state = RoutingState::new();
    let ev = instantiate(&mut state, &addr(DEPLOYER), OWNER).unwrap();
    assert_eq!("hpl_hook_routing::initialize", ev.kind);
    assert_eq!(2, ev.attributes.len());
    assert_eq!("sender", ev.attributes[0].key);
    assert_eq!(DEPLOYER, ev.attributes[0].value);
    assert_eq!("owner", ev.attributes[1].key);
    assert_eq!(OWNER, ev.attributes[1].value);
}

#[test]
fn test_instantiate_rejects_malformed_owner() {
    let mut state = RoutingState::new();
    let err = instantiate(&mut state, &addr(DEPLOYER), "Owner").unwrap_err();
    assert_eq!(ContractError::ValidationError, err);
    assert!(query(&state, QueryMsg::Owner).is_err());
}

#[test]
fn test_get_mailbox() {
    assert_eq!("unrestricted", get_mailbox().mailbox);
    match query(&deps(), QueryMsg::Mailbox).unwrap() {
        QueryOutcome::Mailbox(m) => assert_eq!("unrestricted", m.mailbox),
        _ => panic!("wrong query outcome"),
    }
}

#[test]
fn test_fallback_unset_fails_not_configured() {
    let fresh = RoutingState::new();
    assert_eq!(
        ContractError::NotConfigured,
        fresh.get_fallback_hook().unwrap_err()
    );

    let mut state = RoutingState::new();
    instantiate(&mut state, &addr(DEPLOYER), OWNER).unwrap();
    assert_eq!(
        ContractError::NotConfigured,
        state.get_fallback_hook().unwrap_err()
    );
}

#[test]
fn test_set_fallback_hook() {
    let mut state = RoutingState::new();
    instantiate(&mut state, &addr(DEPLOYER), OWNER).unwrap();
    let ev = state.set_fallback_hook(&addr(OWNER), FALLBACK_HOOK).unwrap();
    assert_eq!("hpl_hook_routing::set_fallback_hook", ev.kind);
    assert_eq!(2, ev.attributes.len());
    assert_eq!("sender", ev.attributes[0].key);
    assert_eq!(OWNER, ev.attributes[0].value);
    assert_eq!("fallback-hook", ev.attributes[1].key);
    assert_eq!(FALLBACK_HOOK, ev.attributes[1].value);
    assert_eq!(FALLBACK_HOOK, state.get_fallback_hook().unwrap().as_str());
}

#[test]
fn test_set_fallback_hook_by_non_owner_unauthorized() {
    let mut state = deps();
    let err = state
        .set_fallback_hook(&addr(MAILBOX), "otherhook")
        .unwrap_err();
    assert_eq!(ContractError::Unauthorized, err);
    // the stored value is unchanged
    assert_eq!(FALLBACK_HOOK, state.get_fallback_hook().unwrap().as_str());
}

#[test]
fn test_set_fallback_hook_rejects_malformed_address() {
    let mut state = deps();
    let err = state
        .set_fallback_hook(&addr(OWNER), "not a hook")
        .unwrap_err();
    assert_eq!(ContractError::ValidationError, err);
    assert_eq!(FALLBACK_HOOK, state.get_fallback_hook().unwrap().as_str());
}

#[test]
fn test_set_fallback_hook_twice_is_idempotent() {
    let mut once = deps_routes();
    let mut twice = deps_routes();
    once.set_fallback_hook(&addr(OWNER), "newhook").unwrap();
    twice.set_fallback_hook(&addr(OWNER), "newhook").unwrap();
    twice.set_fallback_hook(&addr(OWNER), "newhook").unwrap();
    for domain in [ROUTE1.0, ROUTE2.0, 12345] {
        assert_eq!(
            once.resolve_route(domain).unwrap().as_str(),
            twice.resolve_route(domain).unwrap().as_str()
        );
    }
}

#[test]
fn test_resolve_route_override_wins() {
    let state = deps_routes();
    assert_eq!(ROUTE1.1, state.resolve_route(ROUTE1.0).unwrap().as_str());
    assert_eq!(ROUTE2.1, state.resolve_route(ROUTE2.0).unwrap().as_str());
}

#[test]
fn test_resolve_route_uses_fallback_without_override() {
    let state = deps_routes();
    assert_eq!(FALLBACK_HOOK, state.resolve_route(12345).unwrap().as_str());
}

#[test]
fn test_resolve_route_nothing_configured() {
    let mut state = RoutingState::new();
    instantiate(&mut state, &addr(DEPLOYER), OWNER).unwrap();
    assert_eq!(
        ContractError::NotConfigured,
        state.resolve_route(ROUTE1.0).unwrap_err()
    );
}

#[test]
fn test_set_route_and_clear() {
    let mut state = deps();
    state
        .set_route(&addr(OWNER), ROUTE1.0, Some(ROUTE1.1))
        .unwrap();
    assert_eq!(ROUTE1.1, state.resolve_route(ROUTE1.0).unwrap().as_str());
    state.set_route(&addr(OWNER), ROUTE1.0, None).unwrap();
    assert_eq!(
        FALLBACK_HOOK,
        state.resolve_route(ROUTE1.0).unwrap().as_str()
    );
}

#[test]
fn test_set_route_by_non_owner_unauthorized() {
    let mut state = deps();
    let err = state
        .set_route(&addr(MAILBOX), ROUTE1.0, Some(ROUTE1.1))
        .unwrap_err();
    assert_eq!(ContractError::Unauthorized, err);
    assert!(state.get_route(ROUTE1.0).is_none());
}

#[test]
fn test_post_dispatch() {
    // one case routed by an override, one falling back
    for (sender_unused, (domain, hook)) in [(MAILBOX, ROUTE1), (OWNER, (12345, FALLBACK_HOOK))] {
        let _ = sender_unused;
        let state = deps_routes();
        let message = make_message(domain);
        let metadata: Vec<u8> = Vec::new();
        let out = post_dispatch(&state, &message, &metadata).unwrap();

        assert_eq!(hook, out.call.hook.as_str());
        assert_eq!(message, out.call.message);
        assert_eq!(metadata, out.call.metadata);

        assert_eq!("hpl_hook_routing::post_dispatch", out.event.kind);
        assert_eq!(3, out.event.attributes.len());
        assert_eq!("domain", out.event.attributes[0].key);
        assert_eq!(domain, out.event.attributes[0].value.parse::<u32>().unwrap());
        assert_eq!("route", out.event.attributes[1].key);
        assert_eq!(hook, out.event.attributes[1].value);
        assert_eq!("message_id", out.event.attributes[2].key);
        assert_eq!(keccak_hex(&message), out.event.attributes[2].value);
    }
}

#[test]
fn test_post_dispatch_event_domain_spelling() {
    let state = deps_routes();
    let out = post_dispatch(&state, &make_message(26657), &Vec::new()).unwrap();
    assert_eq!("26657", out.event.attributes[0].value);
}

#[test]
fn test_post_dispatch_short_message() {
    let state = deps_routes();
    let short: Vec<u8> = vec![0u8; 76];
    assert_eq!(
        ContractError::ValidationError,
        post_dispatch(&state, &short, &Vec::new()).unwrap_err()
    );
}

#[test]
fn test_post_dispatch_unconfigured_fallback() {
    let mut state = RoutingState::new();
    instantiate(&mut state, &addr(DEPLOYER), OWNER).unwrap();
    assert_eq!(
        ContractError::NotConfigured,
        post_dispatch(&state, &make_message(12345), &Vec::new()).unwrap_err()
    );
}

#[test]
fn test_message_id_is_the_digest() {
    let state = deps_routes();
    let message = make_message(ROUTE1.0);
    let routed = route(&state, &message).unwrap();
    assert_eq!(ROUTE1.0, routed.message.dest_domain);
    let mut hasher = Keccak256::new();
    hasher.update(&message);
    assert_eq!(hasher.finalize().to_vec(), routed.message.id);
}

#[test]
fn test_decode_dest_domain_big_endian() {
    let mut message = make_message(0);
    message[41..45].copy_from_slice(&[0x00, 0x01, 0x02, 0x03]);
    let routed = route(&deps_routes(), &message).unwrap();
    assert_eq!(66051, routed.message.dest_domain);
}

#[test]
fn test_quote_dispatch() {
    // domain 26657 is routed to an override that reports the fee parsed
    // from the metadata; domain 12345 falls back to a hook reporting none
    for (domain, expected_fee) in [(26657u32, Some(26657u32)), (12345u32, None)] {
        let state = deps_routes();
        let message = make_message(domain);
        let metadata = domain.to_be_bytes().to_vec();
        let q = quote_dispatch(&state, &message, &metadata).unwrap();
        assert_eq!(message, q.message);
        assert_eq!(metadata, q.metadata);
        let res = simulated_hook_answer(&q);
        assert_eq!(
            expected_fee,
            res.fees.first().map(|v| v.amount as u32)
        );
    }
}

#[test]
fn test_quote_dispatch_short_message() {
    let state = deps_routes();
    let short: Vec<u8> = Vec::new();
    assert_eq!(
        ContractError::ValidationError,
        quote_dispatch(&state, &short, &Vec::new()).unwrap_err()
    );
}

#[test]
fn test_execute_router() {
    let mut state = RoutingState::new();
    instantiate(&mut state, &addr(DEPLOYER), OWNER).unwrap();

    let outcome = routing_fallback_hook::execute(
        &mut state,
        &addr(OWNER),
        ExecuteMsg::SetFallbackHook {
            hook: FALLBACK_HOOK.to_string(),
        },
    )
    .unwrap();
    match outcome {
        ExecuteOutcome::FallbackSet(ev) => {
            assert_eq!("hpl_hook_routing::set_fallback_hook", ev.kind)
        }
        _ => panic!("wrong execute outcome"),
    }

    let outcome = routing_fallback_hook::execute(
        &mut state,
        &addr(OWNER),
        ExecuteMsg::SetRoute {
            domain: ROUTE1.0,
            route: Some(ROUTE1.1.to_string()),
        },
    )
    .unwrap();
    assert!(matches!(outcome, ExecuteOutcome::RouteSet));

    let message = make_message(ROUTE1.0);
    let outcome = routing_fallback_hook::execute(
        &mut state,
        &addr(MAILBOX),
        ExecuteMsg::PostDispatch {
            message: message.clone(),
            metadata: Vec::new(),
        },
    )
    .unwrap();
    match outcome {
        ExecuteOutcome::Dispatched(out) => assert_eq!(ROUTE1.1, out.call.hook.as_str()),
        _ => panic!("wrong execute outcome"),
    }
}

#[test]
fn test_query_router() {
    let state = deps_routes();
    match query(&state, QueryMsg::FallbackHook).unwrap() {
        QueryOutcome::FallbackHook(a) => assert_eq!(FALLBACK_HOOK, a.as_str()),
        _ => panic!("wrong query outcome"),
    }
    match query(&state, QueryMsg::Route { domain: ROUTE1.0 }).unwrap() {
        QueryOutcome::Route(Some(a)) => assert_eq!(ROUTE1.1, a.as_str()),
        _ => panic!("wrong query outcome"),
    }
    match query(&state, QueryMsg::Route { domain: 777 }).unwrap() {
        QueryOutcome::Route(None) => {}
        _ => panic!("wrong query outcome"),
    }
    let message = make_message(ROUTE1.0);
    match query(
        &state,
        QueryMsg::QuoteDispatch {
            message: message.clone(),
            metadata: Vec::new(),
        },
    )
    .unwrap()
    {
        QueryOutcome::Quote(q) => assert_eq!(ROUTE1.1, q.hook.as_str()),
        _ => panic!("wrong query outcome"),
    }
}

#[test]
fn test_address_validation() {
    assert!(Address::validate("abc123").is_ok());
    assert_eq!(
        ContractError::ValidationError,
        Address::validate("").unwrap_err()
    );
    assert_eq!(
        ContractError::ValidationError,
        Address::validate("Route1").unwrap_err()
    );
    assert_eq!(
        ContractError::ValidationError,
        Address::validate("with space").unwrap_err()
    );
    let long = "a".repeat(91);
    assert_eq!(
        ContractError::ValidationError,
        Address::validate(&long).unwrap_err()
    );
    assert!(Address::validate(&"a".repeat(90)).is_ok());
}

#[test]
fn test_override_wins_even_without_fallback() {
    // the override takes precedence whatever the fallback slot holds,
    // including when it was never set
    let mut state = RoutingState::new();
    instantiate(&mut state, &addr(DEPLOYER), OWNER).unwrap();
    state
        .set_route(&addr(OWNER), ROUTE1.0, Some(ROUTE1.1))
        .unwrap();
    assert_eq!(ROUTE1.1, state.resolve_route(ROUTE1.0).unwrap().as_str());
}

#[test]
fn test_set_route_overwrites_existing_entry() {
    let mut state = deps_routes();
    state
        .set_route(&addr(OWNER), ROUTE1.0, Some("otherhook"))
        .unwrap();
    assert_eq!("otherhook", state.resolve_route(ROUTE1.0).unwrap().as_str());
    assert_eq!(ROUTE2.1, state.resolve_route(ROUTE2.0).unwrap().as_str());
}

#[test]
fn test_hex_string_exact() {
    assert_eq!("", hex_string(&Vec::new()));
    assert_eq!("001fa0ff", hex_string(&vec![0x00, 0x1f, 0xa0, 0xff]));
}

#[test]
fn test_dec_string_exact() {
    assert_eq!("0", dec_string(0));
    assert_eq!("10", dec_string(10));
    assert_eq!("26657", dec_string(26657));
    assert_eq!("4294967295", dec_string(u32::MAX));
}
