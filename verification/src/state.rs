//! The hook's persisted state: the access-control owner, the fallback hook
//! slot, and the per-domain route override table. The surrounding
//! environment loads this state before a request and persists it after;
//! every rule about it is decided here.

use std::collections::HashMap;

use vstd::prelude::*;

use crate::addr::Address;
use crate::addr::valid_addr;
use crate::error::ContractError;
use crate::msg::attr;
use crate::msg::set_fallback_event_ok;
use crate::msg::Attribute;
use crate::msg::AuditEvent;

verus! {

broadcast use vstd::std_specs::hash::group_hash_axioms;

/// The state a single hook instance carries between requests.
pub struct RoutingState {
    /// The access-control owner; unset until initialization.
    pub owner: Option<Address>,
    /// The fallback hook; unset until the owner configures it.
    pub fallback: Option<Address>,
    /// The per-domain override table.
    pub routes: HashMap<u32, Address>,
}

impl RoutingState {
    /// Every address the state holds is well-formed.
    pub open spec fn wf(self) -> bool {
        &&& (self.owner matches Some(a) ==> a.wf())
        &&& (self.fallback matches Some(a) ==> a.wf())
        &&& forall|d: u32| self.routes@.contains_key(d) ==> (#[trigger] self.routes@[d]).wf()
    }

    /// Whether the given caller is the configured owner.
    pub open spec fn spec_is_owner(self, caller: Seq<char>) -> bool {
        self.owner matches Some(o) && o@ == caller
    }

    /// The hook a domain resolves to: its override entry if one exists,
    /// else the fallback slot's content.
    pub open spec fn spec_resolve(self, domain: u32) -> Option<Address> {
        if self.routes@.contains_key(domain) {
            Some(self.routes@[domain])
        } else {
            self.fallback
        }
    }

    /// The resolved hook for a domain, as a string of characters.
    pub open spec fn resolved_view(self, domain: u32) -> Option<Seq<char>> {
        match self.spec_resolve(domain) {
            Some(a) => Some(a@),
            None => None,
        }
    }

    /// The same state with the fallback slot replaced.
    pub open spec fn with_fallback(self, hook: Address) -> RoutingState {
        RoutingState { fallback: Some(hook), ..self }
    }

    /// A fresh state: no owner, no fallback, no overrides.
    pub fn new() -> (r: RoutingState)
        ensures
            r.owner is None,
            r.fallback is None,
            r.routes@ == Map::<u32, Address>::empty(),
            r.wf(),
    {
        RoutingState { owner: None, fallback: None, routes: HashMap::new() }
    }

    /// The configured owner, or `NotConfigured` before initialization.
    pub fn get_owner(&self) -> (r: Result<Address, ContractError>)
        ensures
            r matches Ok(a) ==> self.owner matches Some(o) && a@ == o@,
            r is Err <==> self.owner is None,
            r matches Err(e) ==> e == ContractError::NotConfigured,
    {
        match &self.owner {
            Some(o) => Ok(o.clone()),
            None => Err(ContractError::NotConfigured),
        }
    }

    /// The configured fallback hook, or `NotConfigured` before any
    /// `set_fallback_hook` call succeeded.
    pub fn get_fallback_hook(&self) -> (r: Result<Address, ContractError>)
        ensures
            r matches Ok(a) ==> self.fallback matches Some(f) && a@ == f@,
            r is Err <==> self.fallback is None,
            r matches Err(e) ==> e == ContractError::NotConfigured,
    {
        match &self.fallback {
            Some(f) => Ok(f.clone()),
            None => Err(ContractError::NotConfigured),
        }
    }

    /// The override entry for a domain, if one exists.
    pub fn get_route(&self, domain: u32) -> (r: Option<Address>)
        ensures
            r matches Some(a) ==> self.routes@.contains_key(domain) && a@ == self.routes@[domain]@,
            r is None <==> !self.routes@.contains_key(domain),
    {
        match self.routes.get(&domain) {
            Some(a) => Some(a.clone()),
            None => None,
        }
    }

    /// Replaces the fallback hook. Only the owner may; anyone else is
    /// refused with `Unauthorized` and the stored value stays as it was.
    pub fn set_fallback_hook(&mut self, sender: &Address, hook: &str) -> (r: Result<
        AuditEvent,
        ContractError,
    >)
        ensures
            old(self).owner is None ==> *final(self) == *old(self) && (r matches Err(e) && e
                == ContractError::NotConfigured),
            !old(self).spec_is_owner(sender@) && old(self).owner is Some ==> *final(self) == *old(self) && (r matches Err(e) && e == ContractError::Unauthorized),
            old(self).spec_is_owner(sender@) && !valid_addr(hook@) ==> *final(self) == *old(self)
                && (r matches Err(e) && e == ContractError::ValidationError),
            old(self).spec_is_owner(sender@) && valid_addr(hook@) ==> r is Ok && (final(self).fallback matches Some(a) && a@ == hook@ && a.wf() && *final(self) == old(self).with_fallback(a)),
            r matches Ok(ev) ==> set_fallback_event_ok(sender@, hook@, ev),
            old(self).wf() ==> final(self).wf(),
    {
        let owner = match &self.owner {
            Some(o) => o,
            None => {
                return Err(ContractError::NotConfigured);
            },
        };
        if !owner.same_as(sender) {
            return Err(ContractError::Unauthorized);
        }
        let fallback_hook = match Address::validate(hook) {
            Ok(a) => a,
            Err(e) => {
                return Err(e);
            },
        };
        self.fallback = Some(fallback_hook);
        let mut attributes: Vec<Attribute> = Vec::new();
        attributes.push(attr("sender", sender.to_text()));
        attributes.push(attr("fallback-hook", hook.to_owned()));
        Ok(
            AuditEvent {
                kind: String::from_str("hpl_hook_routing::set_fallback_hook"),
                attributes,
            },
        )
    }

    /// Sets or clears a domain's override entry. Only the owner may;
    /// anyone else is refused with `Unauthorized` and the table stays as
    /// it was.
    pub fn set_route(&mut self, sender: &Address, domain: u32, hook: Option<&str>) -> (r: Result<
        (),
        ContractError,
    >)
        ensures
            old(self).owner is None ==> *final(self) == *old(self) && (r matches Err(e) && e
                == ContractError::NotConfigured),
            !old(self).spec_is_owner(sender@) && old(self).owner is Some ==> *final(self) == *old(self) && (r matches Err(e) && e == ContractError::Unauthorized),
            old(self).spec_is_owner(sender@) ==> match hook {
                Some(h) => if valid_addr(h@) {
                    r is Ok && final(self).routes@.contains_key(domain)
                        && final(self).routes@[domain]@ == h@
                        && final(self).routes@
                        == old(self).routes@.insert(domain, final(self).routes@[domain])
                } else {
                    *final(self) == *old(self) && (r matches Err(e) && e
                        == ContractError::ValidationError)
                },
                None => r is Ok && final(self).routes@ == old(self).routes@.remove(domain),
            },
            r is Ok ==> final(self).owner == old(self).owner && final(self).fallback == old(self).fallback,
            old(self).wf() ==> final(self).wf(),
    {
        let owner = match &self.owner {
            Some(o) => o,
            None => {
                return Err(ContractError::NotConfigured);
            },
        };
        if !owner.same_as(sender) {
            return Err(ContractError::Unauthorized);
        }
        match hook {
            Some(h) => {
                let route = match Address::validate(h) {
                    Ok(a) => a,
                    Err(e) => {
                        return Err(e);
                    },
                };
                self.routes.insert(domain, route);
            },
            None => {
                self.routes.remove(&domain);
            },
        }
        Ok(())
    }

    /// Resolves the effective hook for a domain: the override entry wins,
    /// else the fallback is used; with neither set the lookup fails.
    pub fn resolve_route(&self, domain: u32) -> (r: Result<Address, ContractError>)
        ensures
            r matches Ok(a) ==> self.resolved_view(domain) == Some(a@),
            r is Err <==> self.spec_resolve(domain) is None,
            r matches Err(e) ==> e == ContractError::NotConfigured,
    {
        match self.routes.get(&domain) {
            Some(a) => Ok(a.clone()),
            None => match &self.fallback {
                Some(f) => Ok(f.clone()),
                None => Err(ContractError::NotConfigured),
            },
        }
    }
}

} // verus!
