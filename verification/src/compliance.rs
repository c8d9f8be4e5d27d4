//! Compliance: decisions for a wallet in a flow, the allow and deny lists of
//! the protocol and of events, and event restriction flags.

use vstd::prelude::*;

use crate::constants::{
    COMPLIANCE_DECISION_ALLOW, COMPLIANCE_DECISION_BLOCK_FINANCING,
    COMPLIANCE_DECISION_BLOCK_PRIMARY, COMPLIANCE_DECISION_BLOCK_RESALE,
    COMPLIANCE_DECISION_DENYLISTED, COMPLIANCE_DECISION_ENTITY_DENIED,
    COMPLIANCE_DECISION_JURISDICTION_RESTRICTED, COMPLIANCE_DECISION_MISSING_ALLOWLIST,
    COMPLIANCE_FLAG_BLOCK_FINANCING, COMPLIANCE_FLAG_BLOCK_PRIMARY, COMPLIANCE_FLAG_BLOCK_RESALE,
    COMPLIANCE_FLAG_JURISDICTION_RESTRICTED, COMPLIANCE_FLAG_REQUIRE_ALLOWLIST,
    COMPLIANCE_FLOW_FINANCING, COMPLIANCE_FLOW_PRIMARY_SALE, COMPLIANCE_FLOW_RESALE,
    COMPLIANCE_LIST_ALLOW, COMPLIANCE_LIST_DENY, COMPLIANCE_LIST_ENTITY_DENY,
    COMPLIANCE_SCOPE_EVENT, COMPLIANCE_SCOPE_PROTOCOL, MAX_COMPLIANCE_REGISTRY_ENTRIES,
};
use crate::error::TicketingError;
use crate::key::{contains_key, key_in, zero_key, Key};
use crate::pda::{
    find_program_address, key_bytes, le_bytes_u64, program_address, seed_event, seeds3,
    spec_seed_event, u64_le_bytes,
};
use crate::roles::{find_organizer_profile_address, organizer_profile_address};
use crate::state::{ComplianceRegistry, EventAccount, OrganizerProfile, ProtocolConfig};

verus! {

/// The decision compliance reaches for a wallet (and the entity behind it)
/// in a flow of an event with the given restriction flags. A flow the event
/// blocks is refused outright; otherwise, with no registry, everything is
/// allowed; with one, a denied wallet, then a denied entity, then a wallet
/// missing from the allowlist where the event requires it or restricts
/// jurisdiction, is refused in that order.
pub open spec fn spec_evaluate_compliance(
    registry: Option<ComplianceRegistry>,
    flow: u8,
    event_restriction_flags: u32,
    wallet: Key,
    entity: Key,
) -> u16 {
    if flow == COMPLIANCE_FLOW_PRIMARY_SALE && (event_restriction_flags
        & COMPLIANCE_FLAG_BLOCK_PRIMARY) != 0 {
        COMPLIANCE_DECISION_BLOCK_PRIMARY
    } else if flow == COMPLIANCE_FLOW_RESALE && (event_restriction_flags
        & COMPLIANCE_FLAG_BLOCK_RESALE) != 0 {
        COMPLIANCE_DECISION_BLOCK_RESALE
    } else if flow == COMPLIANCE_FLOW_FINANCING && (event_restriction_flags
        & COMPLIANCE_FLAG_BLOCK_FINANCING) != 0 {
        COMPLIANCE_DECISION_BLOCK_FINANCING
    } else {
        match registry {
            None => COMPLIANCE_DECISION_ALLOW,
            Some(reg) => if key_in(reg.denylist@, wallet@) {
                COMPLIANCE_DECISION_DENYLISTED
            } else if key_in(reg.entity_denylist@, entity@) {
                COMPLIANCE_DECISION_ENTITY_DENIED
            } else if (event_restriction_flags & COMPLIANCE_FLAG_REQUIRE_ALLOWLIST) != 0 && !key_in(
                reg.allowlist@,
                wallet@,
            ) {
                COMPLIANCE_DECISION_MISSING_ALLOWLIST
            } else if (event_restriction_flags & COMPLIANCE_FLAG_JURISDICTION_RESTRICTED) != 0
                && !key_in(reg.allowlist@, wallet@) {
                COMPLIANCE_DECISION_JURISDICTION_RESTRICTED
            } else {
                COMPLIANCE_DECISION_ALLOW
            },
        }
    }
}

/// Evaluates compliance for a wallet in a flow. `registry` is the contents
/// of the registry account offered, when it holds a registry.
pub fn evaluate_compliance(
    registry: &Option<ComplianceRegistry>,
    flow: u8,
    event_restriction_flags: u32,
    wallet: &Key,
    entity: &Key,
) -> (r: u16)
    ensures
        r == spec_evaluate_compliance(*registry, flow, event_restriction_flags, *wallet, *entity),
{
    if flow == COMPLIANCE_FLOW_PRIMARY_SALE && (event_restriction_flags
        & COMPLIANCE_FLAG_BLOCK_PRIMARY) != 0 {
        return COMPLIANCE_DECISION_BLOCK_PRIMARY;
    }
    if flow == COMPLIANCE_FLOW_RESALE && (event_restriction_flags & COMPLIANCE_FLAG_BLOCK_RESALE)
        != 0 {
        return COMPLIANCE_DECISION_BLOCK_RESALE;
    }
    if flow == COMPLIANCE_FLOW_FINANCING && (event_restriction_flags
        & COMPLIANCE_FLAG_BLOCK_FINANCING) != 0 {
        return COMPLIANCE_DECISION_BLOCK_FINANCING;
    }
    let reg = match registry {
        None => return COMPLIANCE_DECISION_ALLOW,
        Some(reg) => reg,
    };
    if contains_key(&reg.denylist, wallet) {
        return COMPLIANCE_DECISION_DENYLISTED;
    }
    if contains_key(&reg.entity_denylist, entity) {
        return COMPLIANCE_DECISION_ENTITY_DENIED;
    }
    if (event_restriction_flags & COMPLIANCE_FLAG_REQUIRE_ALLOWLIST) != 0 && !contains_key(
        &reg.allowlist,
        wallet,
    ) {
        return COMPLIANCE_DECISION_MISSING_ALLOWLIST;
    }
    if (event_restriction_flags & COMPLIANCE_FLAG_JURISDICTION_RESTRICTED) != 0 && !contains_key(
        &reg.allowlist,
        wallet,
    ) {
        return COMPLIANCE_DECISION_JURISDICTION_RESTRICTED;
    }
    COMPLIANCE_DECISION_ALLOW
}

/// The organizer or the protocol admin sets the compliance restriction
/// flags of an event. Refused with `Unauthorized`, the event unchanged, for
/// anyone else.
pub fn set_event_restrictions(
    protocol_config: &ProtocolConfig,
    organizer_profile: &OrganizerProfile,
    event_account: &mut EventAccount,
    authority: &Key,
    restriction_flags: u32,
    now: i64,
) -> (r: Result<(), TicketingError>)
    ensures
        !(authority@ == organizer_profile.authority@ || authority@ == protocol_config.admin@)
            ==> r == Err::<(), TicketingError>(TicketingError::Unauthorized) && *final(event_account) == *old(event_account),
        (authority@ == organizer_profile.authority@ || authority@ == protocol_config.admin@) ==> r
            is Ok && *final(event_account) == (EventAccount {
            compliance_restriction_flags: restriction_flags,
            updated_at: now,
            ..*old(event_account)
        }),
{
    if !(authority.same(&organizer_profile.authority) || authority.same(&protocol_config.admin)) {
        return Err(TicketingError::Unauthorized);
    }
    event_account.compliance_restriction_flags = restriction_flags;
    event_account.updated_at = now;
    Ok(())
}

/// The address of event `event_id` of an organizer.
pub open spec fn event_address(organizer_profile_key: Key, event_id: u64, program_id: Key) -> Option<
    (Seq<u8>, u8),
> {
    program_address(
        seq![spec_seed_event(), organizer_profile_key@, le_bytes_u64(event_id)],
        program_id@,
    )
}

/// Derives the address of an event.
pub fn find_event_address(organizer_profile_key: &Key, event_id: u64, program_id: &Key) -> (r:
    Option<(Key, u8)>)
    ensures
        match r {
            Some(found) => event_address(*organizer_profile_key, event_id, *program_id) == Some(
                (found.0@, found.1),
            ),
            None => event_address(*organizer_profile_key, event_id, *program_id) is None,
        },
{
    let seeds = seeds3(seed_event(), key_bytes(organizer_profile_key), u64_le_bytes(event_id));
    find_program_address(&seeds, program_id)
}

/// The accounts an event-scope registry change is checked against: the
/// organizer profile and event offered, with their contents when they hold
/// such accounts.
#[derive(Clone, Debug)]
pub struct EventScopeProof {
    pub organizer_profile_key: Key,
    pub organizer_profile: Option<OrganizerProfile>,
    pub event_account_key: Key,
    pub event_account: Option<EventAccount>,
    pub program_id: Key,
}

/// Whether `authority` may change the event-scope registry of `target`: it
/// is the protocol admin, or the offered organizer profile is its own (at
/// its address) and the offered event is that organizer's event at its
/// address, and is `target`.
pub open spec fn spec_event_scope_authorized(
    authority: Key,
    protocol_config: ProtocolConfig,
    proof_accounts: EventScopeProof,
    target: Key,
) -> Result<bool, TicketingError> {
    if authority@ == protocol_config.admin@ {
        Ok(true)
    } else {
        match proof_accounts.organizer_profile {
            None => Ok(false),
            Some(organizer) => match organizer_profile_address(
                authority,
                proof_accounts.program_id,
            ) {
                None => Err(TicketingError::ProgramAddressNotFound),
                Some(expected_organizer) => if proof_accounts.organizer_profile_key@
                    != expected_organizer.0 || organizer.authority@ != authority@ {
                    Ok(false)
                } else {
                    match proof_accounts.event_account {
                        None => Ok(false),
                        Some(event) => match event_address(
                            proof_accounts.organizer_profile_key,
                            event.event_id,
                            proof_accounts.program_id,
                        ) {
                            None => Err(TicketingError::ProgramAddressNotFound),
                            Some(expected_event) => Ok(
                                proof_accounts.event_account_key@ == expected_event.0
                                    && event.organizer@ == proof_accounts.organizer_profile_key@
                                    && target@ == proof_accounts.event_account_key@,
                            ),
                        },
                    }
                },
            },
        }
    }
}

/// Whether `authority` may change the event-scope registry of `target`.
pub fn is_event_scope_authorized(
    authority: &Key,
    protocol_config: &ProtocolConfig,
    proof_accounts: &EventScopeProof,
    target: &Key,
) -> (r: Result<bool, TicketingError>)
    ensures
        r == spec_event_scope_authorized(*authority, *protocol_config, *proof_accounts, *target),
{
    if authority.same(&protocol_config.admin) {
        return Ok(true);
    }
    let organizer = match &proof_accounts.organizer_profile {
        None => return Ok(false),
        Some(o) => o,
    };
    let expected_organizer = match find_organizer_profile_address(
        authority,
        &proof_accounts.program_id,
    ) {
        None => return Err(TicketingError::ProgramAddressNotFound),
        Some(found) => found.0,
    };
    if !proof_accounts.organizer_profile_key.same(&expected_organizer) || !organizer.authority.same(
        authority,
    ) {
        return Ok(false);
    }
    let event = match &proof_accounts.event_account {
        None => return Ok(false),
        Some(e) => e,
    };
    let expected_event = match find_event_address(
        &proof_accounts.organizer_profile_key,
        event.event_id,
        &proof_accounts.program_id,
    ) {
        None => return Err(TicketingError::ProgramAddressNotFound),
        Some(found) => found.0,
    };
    Ok(proof_accounts.event_account_key.same(&expected_event) && event.organizer.same(
        &proof_accounts.organizer_profile_key,
    ) && target.same(&proof_accounts.event_account_key))
}

/// Keeps the entries other than `subject`.
pub open spec fn other_than(subject: Seq<u8>) -> spec_fn(Key) -> bool {
    |k: Key| k@ != subject
}

/// A list after `subject` is added (`is_allowed`) or removed: adding keeps a
/// list that already holds it, else appends it; removing drops every entry
/// equal to it and keeps the others in order.
pub open spec fn updated_entries(list: Seq<Key>, subject: Key, is_allowed: bool) -> Seq<Key> {
    if is_allowed {
        if key_in(list, subject@) {
            list
        } else {
            list.push(subject)
        }
    } else {
        list.filter(other_than(subject@))
    }
}

/// Adds or removes `subject` in one list of a registry.
fn update_entries(list: &mut Vec<Key>, subject: &Key, is_allowed: bool)
    requires
        is_allowed && !key_in(old(list)@, subject@) ==> old(list)@.len()
            < MAX_COMPLIANCE_REGISTRY_ENTRIES,
    ensures
        final(list)@ == updated_entries(old(list)@, *subject, is_allowed),
{
    if is_allowed {
        if !contains_key(list, subject) {
            list.push(*subject);
        }
    } else {
        let mut kept: Vec<Key> = Vec::new();
        let mut i: usize = 0;
        while i < list.len()
            invariant
                0 <= i <= list@.len(),
                list@ == old(list)@,
                kept@ == list@.take(i as int).filter(other_than(subject@)),
            decreases list@.len() - i,
        {
            proof {
                let s = list@.take(i as int + 1);
                assert(s.drop_last() =~= list@.take(i as int));
                assert(s.last() == list@[i as int]);
                reveal(Seq::filter);
            }
            if !list[i].same(subject) {
                kept.push(list[i]);
            }
            i = i + 1;
        }
        assert(list@.take(list@.len() as int) =~= list@);
        *list = kept;
    }
}

/// Whether no address occurs twice in a list.
pub open spec fn distinct_keys(list: Seq<Key>) -> bool {
    forall|i: int, j: int| 0 <= i < j < list.len() ==> list[i]@ != list[j]@
}

/// Keeping some entries of a list with no address twice keeps it so, and
/// keeps only entries of the list.
proof fn lemma_filter_distinct(s: Seq<Key>, p: spec_fn(Key) -> bool)
    requires
        distinct_keys(s),
    ensures
        distinct_keys(s.filter(p)),
        forall|i: int|
            #![trigger s.filter(p)[i]]
            0 <= i < s.filter(p).len() ==> exists|j: int|
                0 <= j < s.len() && #[trigger] s[j] == s.filter(p)[i],
    decreases s.len(),
{
    reveal(Seq::filter);
    if s.len() > 0 {
        let d = s.drop_last();
        assert(distinct_keys(d));
        lemma_filter_distinct(d, p);
        let fd = d.filter(p);
        let f = s.filter(p);
        assert forall|i: int| #![trigger fd[i]] 0 <= i < fd.len() implies exists|j: int|
            0 <= j < s.len() && #[trigger] s[j] == fd[i] by {
            let j = choose|j: int| 0 <= j < d.len() && #[trigger] d[j] == fd[i];
            assert(s[j] == d[j]);
        }
        if p(s.last()) {
            assert(f == fd.push(s.last()));
            assert forall|i: int, j: int| 0 <= i < j < f.len() implies f[i]@ != f[j]@ by {
                if j < fd.len() {
                    assert(f[i] == fd[i] && f[j] == fd[j]);
                } else {
                    assert(f[i] == fd[i]);
                    let k = choose|k: int| 0 <= k < s.len() && #[trigger] s[k] == fd[i];
                    assert(k < s.len() - 1) by {
                        if k == s.len() - 1 {
                            let m = choose|m: int| 0 <= m < d.len() && #[trigger] d[m] == fd[i];
                            assert(s[m] == d[m]);
                            assert(s[m]@ != s[k]@);
                        }
                    }
                    assert(s[k]@ != s[s.len() - 1]@);
                }
            }
            assert forall|i: int| #![trigger f[i]] 0 <= i < f.len() implies exists|j: int|
                0 <= j < s.len() && #[trigger] s[j] == f[i] by {
                if i < fd.len() {
                    assert(f[i] == fd[i]);
                } else {
                    assert(s[s.len() - 1] == f[i]);
                }
            }
        } else {
            assert(f == fd);
        }
    }
}

/// Law: the lists of a registry never hold an address twice, and after a
/// change the subject is on the list exactly when it was added.
pub proof fn law_registry_lists_stay_distinct(list: Seq<Key>, subject: Key, is_allowed: bool)
    requires
        distinct_keys(list),
    ensures
        distinct_keys(updated_entries(list, subject, is_allowed)),
        key_in(updated_entries(list, subject, is_allowed), subject@) == is_allowed,
{
    broadcast use vstd::seq_lib::group_filter_ensures;

    if is_allowed {
        if !key_in(list, subject@) {
            let u = list.push(subject);
            assert(u[list.len() as int]@ == subject@);
            assert forall|i: int, j: int| 0 <= i < j < u.len() implies u[i]@ != u[j]@ by {
                if j < list.len() {
                    assert(u[i] == list[i] && u[j] == list[j]);
                } else {
                    assert(u[i] == list[i]);
                }
            }
        }
    } else {
        let f = list.filter(other_than(subject@));
        lemma_filter_distinct(list, other_than(subject@));
        assert forall|i: int| 0 <= i < f.len() implies #[trigger] f[i]@ != subject@ by {
            assert(other_than(subject@)(f[i]));
        }
    }
}

/// Whether a registry account has not been set up yet.
pub open spec fn registry_is_fresh(registry: ComplianceRegistry) -> bool {
    registry.target@ == zero_key()
}

/// A list of a registry as an update starts from: empty for a registry that
/// is being set up.
pub open spec fn starting_entries(registry: ComplianceRegistry, list: Seq<Key>) -> Seq<Key> {
    if registry_is_fresh(registry) {
        Seq::empty()
    } else {
        list
    }
}

/// The list of a registry that a list type names.
pub open spec fn named_entries(registry: ComplianceRegistry, list_type: u8) -> Seq<Key> {
    if list_type == COMPLIANCE_LIST_ALLOW {
        registry.allowlist@
    } else if list_type == COMPLIANCE_LIST_DENY {
        registry.denylist@
    } else {
        registry.entity_denylist@
    }
}

/// What one registry change asks for.
#[derive(Clone, Copy, Debug)]
pub struct RegistryEntryChange {
    pub scope: u8,
    pub target: Key,
    pub subject: Key,
    pub list_type: u8,
    pub is_allowed: bool,
}

/// The first reason a registry change is refused, if any.
pub open spec fn upsert_registry_entry_error(
    protocol_config: ProtocolConfig,
    protocol_config_key: Key,
    authority: Key,
    proof_accounts: EventScopeProof,
    registry: ComplianceRegistry,
    change: RegistryEntryChange,
) -> Option<TicketingError> {
    if !(change.scope == COMPLIANCE_SCOPE_PROTOCOL || change.scope == COMPLIANCE_SCOPE_EVENT) {
        Some(TicketingError::InvalidComplianceScope)
    } else if !(change.list_type == COMPLIANCE_LIST_ALLOW || change.list_type
        == COMPLIANCE_LIST_DENY || change.list_type == COMPLIANCE_LIST_ENTITY_DENY) {
        Some(TicketingError::InvalidComplianceListType)
    } else if change.scope == COMPLIANCE_SCOPE_PROTOCOL && (change.target@ != protocol_config_key@
        || authority@ != protocol_config.admin@) {
        Some(TicketingError::Unauthorized)
    } else if change.scope == COMPLIANCE_SCOPE_EVENT && spec_event_scope_authorized(
        authority,
        protocol_config,
        proof_accounts,
        change.target,
    ) != Ok::<bool, TicketingError>(true) {
        match spec_event_scope_authorized(authority, protocol_config, proof_accounts, change.target) {
            Err(e) => Some(e),
            Ok(_) => Some(TicketingError::Unauthorized),
        }
    } else if !registry_is_fresh(registry) && registry.scope != change.scope {
        Some(TicketingError::InvalidComplianceScope)
    } else if !registry_is_fresh(registry) && registry.target@ != change.target@ {
        Some(TicketingError::Unauthorized)
    } else if change.is_allowed && !key_in(
        starting_entries(registry, named_entries(registry, change.list_type)),
        change.subject@,
    ) && starting_entries(registry, named_entries(registry, change.list_type)).len()
        >= MAX_COMPLIANCE_REGISTRY_ENTRIES {
        Some(TicketingError::ComplianceRegistryFull)
    } else {
        None
    }
}

/// One list after a change: the named list is updated, the others are kept
/// (or emptied, for a registry being set up).
pub open spec fn list_after(
    registry: ComplianceRegistry,
    list: Seq<Key>,
    this_list_type: u8,
    change: RegistryEntryChange,
) -> Seq<Key> {
    if change.list_type == this_list_type {
        updated_entries(starting_entries(registry, list), change.subject, change.is_allowed)
    } else {
        starting_entries(registry, list)
    }
}

/// Adds `subject` to, or removes it from, one list of the compliance
/// registry of the protocol or of an event. The protocol registry is
/// changed by the protocol admin only, an event's by the admin or the
/// event's organizer. A registry account not yet set up takes the scope
/// and target now, with empty lists and `registry_bump`.
///
/// Refused for the first reason of `upsert_registry_entry_error`, with the
/// registry unchanged.
pub fn upsert_registry_entry(
    protocol_config: &ProtocolConfig,
    protocol_config_key: &Key,
    authority: &Key,
    proof_accounts: &EventScopeProof,
    registry: &mut ComplianceRegistry,
    registry_bump: u8,
    change: RegistryEntryChange,
    now: i64,
) -> (r: Result<(), TicketingError>)
    ensures
        ({
            let err = upsert_registry_entry_error(
                *protocol_config,
                *protocol_config_key,
                *authority,
                *proof_accounts,
                *old(registry),
                change,
            );
            let fresh = registry_is_fresh(*old(registry));
            &&& err is Some ==> r == Err::<(), TicketingError>(err.unwrap()) && *final(registry)
                == *old(registry)
            &&& err is None ==> {
                &&& r is Ok
                &&& final(registry).bump == (if fresh {
                    registry_bump
                } else {
                    old(registry).bump
                })
                &&& final(registry).scope == change.scope
                &&& final(registry).target == (if fresh {
                    change.target
                } else {
                    old(registry).target
                })
                &&& final(registry).target@ == change.target@
                &&& final(registry).allowlist@ == list_after(
                    *old(registry),
                    old(registry).allowlist@,
                    COMPLIANCE_LIST_ALLOW,
                    change,
                )
                &&& final(registry).denylist@ == list_after(
                    *old(registry),
                    old(registry).denylist@,
                    COMPLIANCE_LIST_DENY,
                    change,
                )
                &&& final(registry).entity_denylist@ == list_after(
                    *old(registry),
                    old(registry).entity_denylist@,
                    COMPLIANCE_LIST_ENTITY_DENY,
                    change,
                )
                &&& final(registry).updated_at == now
            }
        }),
{
    if !(change.scope == COMPLIANCE_SCOPE_PROTOCOL || change.scope == COMPLIANCE_SCOPE_EVENT) {
        return Err(TicketingError::InvalidComplianceScope);
    }
    if !(change.list_type == COMPLIANCE_LIST_ALLOW || change.list_type == COMPLIANCE_LIST_DENY
        || change.list_type == COMPLIANCE_LIST_ENTITY_DENY) {
        return Err(TicketingError::InvalidComplianceListType);
    }
    if change.scope == COMPLIANCE_SCOPE_PROTOCOL {
        if !change.target.same(protocol_config_key) || !authority.same(&protocol_config.admin) {
            return Err(TicketingError::Unauthorized);
        }
    } else {
        let ok = is_event_scope_authorized(authority, protocol_config, proof_accounts, &change.target)?;
        if !ok {
            return Err(TicketingError::Unauthorized);
        }
    }
    let fresh = registry.target.is_zero();
    if !fresh {
        if registry.scope != change.scope {
            return Err(TicketingError::InvalidComplianceScope);
        }
        if !registry.target.same(&change.target) {
            return Err(TicketingError::Unauthorized);
        }
        if change.is_allowed {
            let full = if change.list_type == COMPLIANCE_LIST_ALLOW {
                !contains_key(&registry.allowlist, &change.subject) && registry.allowlist.len()
                    >= MAX_COMPLIANCE_REGISTRY_ENTRIES
            } else if change.list_type == COMPLIANCE_LIST_DENY {
                !contains_key(&registry.denylist, &change.subject) && registry.denylist.len()
                    >= MAX_COMPLIANCE_REGISTRY_ENTRIES
            } else {
                !contains_key(&registry.entity_denylist, &change.subject)
                    && registry.entity_denylist.len() >= MAX_COMPLIANCE_REGISTRY_ENTRIES
            };
            if full {
                return Err(TicketingError::ComplianceRegistryFull);
            }
        }
    }
    if fresh {
        registry.bump = registry_bump;
        registry.scope = change.scope;
        registry.target = change.target;
        registry.allowlist = Vec::new();
        registry.denylist = Vec::new();
        registry.entity_denylist = Vec::new();
    }
    if change.list_type == COMPLIANCE_LIST_ALLOW {
        update_entries(&mut registry.allowlist, &change.subject, change.is_allowed);
    } else if change.list_type == COMPLIANCE_LIST_DENY {
        update_entries(&mut registry.denylist, &change.subject, change.is_allowed);
    } else {
        update_entries(&mut registry.entity_denylist, &change.subject, change.is_allowed);
    }
    registry.updated_at = now;
    Ok(())
}

} // verus!
