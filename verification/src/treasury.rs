//! Lamport vaults: set-up, balance snapshots and withdrawals.

use vstd::prelude::*;

use crate::constants::{
    ROLE_ORGANIZER_ADMIN, ROLE_PROTOCOL_ADMIN, ROLE_SCOPE_ORGANIZER, ROLE_SCOPE_PROTOCOL,
    VAULT_KIND_EVENT, VAULT_KIND_FINANCING, VAULT_KIND_ORGANIZER, VAULT_KIND_PROTOCOL,
};
use crate::error::TicketingError;
use crate::key::Key;
use crate::roles::{is_authorized_with_role, spec_authorized_with_role};
use crate::state::{
    EventAccount, FinancingOffer, OrganizerProfile, ProtocolConfig, RoleBinding, VaultAccount,
};

verus! {

/// Whether a number names a vault kind.
pub open spec fn valid_vault_kind(kind: u8) -> bool {
    kind == VAULT_KIND_PROTOCOL || kind == VAULT_KIND_ORGANIZER || kind == VAULT_KIND_EVENT
        || kind == VAULT_KIND_FINANCING
}

/// Whether a number names a vault kind.
pub fn validate_kind(kind: u8) -> (r: Result<(), TicketingError>)
    ensures
        r is Ok <==> valid_vault_kind(kind),
        r is Err ==> r == Err::<(), TicketingError>(TicketingError::InvalidVaultKind),
{
    if kind == VAULT_KIND_PROTOCOL || kind == VAULT_KIND_ORGANIZER || kind == VAULT_KIND_EVENT
        || kind == VAULT_KIND_FINANCING {
        Ok(())
    } else {
        Err(TicketingError::InvalidVaultKind)
    }
}

/// The accounts that may own a vault, as the app decoded them: each is
/// `None` when the account does not hold an account of that type.
#[derive(Clone, Debug)]
pub struct VaultParents {
    pub protocol_config_key: Key,
    pub organizer_profile_key: Key,
    pub organizer_profile: Option<OrganizerProfile>,
    pub event_account_key: Key,
    pub event_account: Option<EventAccount>,
    pub financing_offer_key: Key,
    pub financing_offer: Option<FinancingOffer>,
}

/// Who controls a vault of a kind: (controller, primary authority, role
/// scope, role), or why the parent is refused.
pub open spec fn vault_controller(
    protocol_config: ProtocolConfig,
    parents: VaultParents,
    kind: u8,
    parent: Key,
) -> Result<(Key, Key, u8, u8), TicketingError> {
    if kind == VAULT_KIND_PROTOCOL {
        if parent@ != parents.protocol_config_key@ {
            Err(TicketingError::InvalidVaultParent)
        } else {
            Ok(
                (
                    parents.protocol_config_key,
                    protocol_config.admin,
                    ROLE_SCOPE_PROTOCOL,
                    ROLE_PROTOCOL_ADMIN,
                ),
            )
        }
    } else if kind == VAULT_KIND_ORGANIZER {
        match parents.organizer_profile {
            None => Err(TicketingError::InvalidVaultParent),
            Some(org) => if parent@ != parents.organizer_profile_key@ {
                Err(TicketingError::InvalidVaultParent)
            } else {
                Ok(
                    (
                        parents.organizer_profile_key,
                        org.authority,
                        ROLE_SCOPE_ORGANIZER,
                        ROLE_ORGANIZER_ADMIN,
                    ),
                )
            },
        }
    } else if kind == VAULT_KIND_EVENT {
        match parents.organizer_profile {
            None => Err(TicketingError::InvalidVaultParent),
            Some(org) => match parents.event_account {
                None => Err(TicketingError::InvalidVaultParent),
                Some(ev) => if parent@ != parents.event_account_key@ {
                    Err(TicketingError::InvalidVaultParent)
                } else if ev.organizer@ != parents.organizer_profile_key@ {
                    Err(TicketingError::InvalidVaultParent)
                } else {
                    Ok(
                        (
                            parents.organizer_profile_key,
                            org.authority,
                            ROLE_SCOPE_ORGANIZER,
                            ROLE_ORGANIZER_ADMIN,
                        ),
                    )
                },
            },
        }
    } else {
        match parents.financing_offer {
            None => Err(TicketingError::InvalidVaultParent),
            Some(_) => if parent@ != parents.financing_offer_key@ {
                Err(TicketingError::InvalidVaultParent)
            } else {
                Ok(
                    (
                        parents.protocol_config_key,
                        protocol_config.admin,
                        ROLE_SCOPE_PROTOCOL,
                        ROLE_PROTOCOL_ADMIN,
                    ),
                )
            },
        }
    }
}

/// The vault's funds account and what the app knows of it.
#[derive(Clone, Copy, Debug)]
pub struct VaultFunds {
    pub vault: Key,
    pub vault_bump: u8,
    pub state_bump: u8,
    /// Lamports the funds account holds now.
    pub balance_lamports: u64,
    /// Lamports a new funds account must be created with.
    pub rent_lamports: u64,
}

/// A delegate's role binding, as the app found it.
#[derive(Clone, Debug)]
pub struct RoleBindingProof {
    pub key: Key,
    pub binding: Option<RoleBinding>,
    pub program_id: Key,
}

/// The first reason a vault initialisation is refused, if any.
pub open spec fn initialize_vault_error(
    protocol_config: ProtocolConfig,
    parents: VaultParents,
    proof_binding: RoleBindingProof,
    authority: Key,
    kind: u8,
    parent: Key,
    now: i64,
) -> Option<TicketingError> {
    if !valid_vault_kind(kind) {
        Some(TicketingError::InvalidVaultKind)
    } else {
        match vault_controller(protocol_config, parents, kind, parent) {
            Err(e) => Some(e),
            Ok(c) => match spec_authorized_with_role(
                authority,
                c.1,
                c.0,
                c.3,
                c.2,
                proof_binding.key,
                proof_binding.binding,
                proof_binding.program_id,
                now,
            ) {
                Err(e) => Some(e),
                Ok(false) => Some(TicketingError::Unauthorized),
                Ok(true) => None,
            },
        }
    }
}

/// Sets up the book-keeping of a lamport vault owned by the protocol, an
/// organizer, an event or a financing offer. The parent's primary authority
/// may do so, or a delegate holding the matching admin role.
///
/// Refused, with the vault state unchanged, for the first reason of
/// `initialize_vault_error`. Otherwise returns whether the funds account
/// must first be created (it holds no lamports; it is then funded with the
/// rent amount), and the vault state records the kind, parent, controller
/// and authority, the balance after creation, and zero flows.
pub fn initialize_vault(
    protocol_config: &ProtocolConfig,
    parents: &VaultParents,
    proof_binding: &RoleBindingProof,
    vault_state: &mut VaultAccount,
    funds: &VaultFunds,
    authority: Key,
    kind: u8,
    parent: Key,
    now: i64,
) -> (r: Result<bool, TicketingError>)
    ensures
        ({
            let err = initialize_vault_error(
                *protocol_config,
                *parents,
                *proof_binding,
                authority,
                kind,
                parent,
                now,
            );
            let c = vault_controller(*protocol_config, *parents, kind, parent).unwrap();
            let create = funds.balance_lamports == 0;
            &&& err is Some ==> r == Err::<bool, TicketingError>(err.unwrap()) && *final(vault_state) == *old(vault_state)
            &&& err is None ==> r == Ok::<bool, TicketingError>(create) && *final(vault_state)
                == (VaultAccount {
                bump: funds.state_bump,
                vault_bump: funds.vault_bump,
                kind,
                parent,
                vault: funds.vault,
                controller: c.0,
                authority: c.1,
                last_recorded_balance_lamports: if create {
                    funds.rent_lamports
                } else {
                    funds.balance_lamports
                },
                total_inflow_lamports: 0,
                total_outflow_lamports: 0,
                created_at: now,
                updated_at: now,
            })
        }),
{
    validate_kind(kind)?;
    let (controller, primary_authority, scope, role) = if kind == VAULT_KIND_PROTOCOL {
        if !parent.same(&parents.protocol_config_key) {
            return Err(TicketingError::InvalidVaultParent);
        }
        (parents.protocol_config_key, protocol_config.admin, ROLE_SCOPE_PROTOCOL, ROLE_PROTOCOL_ADMIN)
    } else if kind == VAULT_KIND_ORGANIZER {
        match &parents.organizer_profile {
            None => return Err(TicketingError::InvalidVaultParent),
            Some(org) => {
                if !parent.same(&parents.organizer_profile_key) {
                    return Err(TicketingError::InvalidVaultParent);
                }
                (parents.organizer_profile_key, org.authority, ROLE_SCOPE_ORGANIZER, ROLE_ORGANIZER_ADMIN)
            },
        }
    } else if kind == VAULT_KIND_EVENT {
        match &parents.organizer_profile {
            None => return Err(TicketingError::InvalidVaultParent),
            Some(org) => match &parents.event_account {
                None => return Err(TicketingError::InvalidVaultParent),
                Some(ev) => {
                    if !parent.same(&parents.event_account_key) {
                        return Err(TicketingError::InvalidVaultParent);
                    }
                    if !ev.organizer.same(&parents.organizer_profile_key) {
                        return Err(TicketingError::InvalidVaultParent);
                    }
                    (parents.organizer_profile_key, org.authority, ROLE_SCOPE_ORGANIZER, ROLE_ORGANIZER_ADMIN)
                },
            },
        }
    } else {
        match &parents.financing_offer {
            None => return Err(TicketingError::InvalidVaultParent),
            Some(_) => {
                if !parent.same(&parents.financing_offer_key) {
                    return Err(TicketingError::InvalidVaultParent);
                }
                (parents.protocol_config_key, protocol_config.admin, ROLE_SCOPE_PROTOCOL, ROLE_PROTOCOL_ADMIN)
            },
        }
    };
    let ok = is_authorized_with_role(
        &authority,
        &primary_authority,
        &controller,
        role,
        scope,
        &proof_binding.key,
        &proof_binding.binding,
        &proof_binding.program_id,
        now,
    )?;
    if !ok {
        return Err(TicketingError::Unauthorized);
    }
    let create = funds.balance_lamports == 0;
    vault_state.bump = funds.state_bump;
    vault_state.vault_bump = funds.vault_bump;
    vault_state.kind = kind;
    vault_state.parent = parent;
    vault_state.vault = funds.vault;
    vault_state.controller = controller;
    vault_state.authority = primary_authority;
    vault_state.last_recorded_balance_lamports = if create {
        funds.rent_lamports
    } else {
        funds.balance_lamports
    };
    vault_state.total_inflow_lamports = 0;
    vault_state.total_outflow_lamports = 0;
    vault_state.created_at = now;
    vault_state.updated_at = now;
    Ok(create)
}

/// The first reason a vault's identity does not match the request, if any.
pub open spec fn vault_identity_error(state: VaultAccount, vault: Key, kind: u8, parent: Key) -> Option<
    TicketingError,
> {
    if !valid_vault_kind(kind) {
        Some(TicketingError::InvalidVaultKind)
    } else if state.parent@ != parent@ {
        Some(TicketingError::InvalidVaultParent)
    } else if state.kind != kind {
        Some(TicketingError::InvalidVaultKind)
    } else if state.vault@ != vault@ {
        Some(TicketingError::InvalidVaultParent)
    } else {
        None
    }
}

/// Records the vault's current balance, counting the change since the last
/// record as inflow (when it grew) or outflow (when it shrank).
///
/// Refused, with the state unchanged, for the first reason of
/// `vault_identity_error`, or with `MathOverflow` when a total would
/// overflow.
pub fn snapshot_vault(
    vault_state: &mut VaultAccount,
    vault: Key,
    kind: u8,
    parent: Key,
    balance: u64,
    now: i64,
) -> (r: Result<(), TicketingError>)
    ensures
        ({
            let err = vault_identity_error(*old(vault_state), vault, kind, parent);
            let last = old(vault_state).last_recorded_balance_lamports;
            let inflow = old(vault_state).total_inflow_lamports;
            let outflow = old(vault_state).total_outflow_lamports;
            &&& err is Some ==> r == Err::<(), TicketingError>(err.unwrap())
            &&& err is None && balance >= last && inflow + (balance - last) > u64::MAX ==> r
                == Err::<(), TicketingError>(TicketingError::MathOverflow)
            &&& err is None && balance < last && outflow + (last - balance) > u64::MAX ==> r
                == Err::<(), TicketingError>(TicketingError::MathOverflow)
            &&& r is Ok <==> err is None && (balance >= last ==> inflow + (balance - last)
                <= u64::MAX) && (balance < last ==> outflow + (last - balance) <= u64::MAX)
            &&& r is Err ==> *final(vault_state) == *old(vault_state)
            &&& r is Ok ==> err is None && *final(vault_state) == (VaultAccount {
                total_inflow_lamports: if balance >= last {
                    (inflow + (balance - last)) as u64
                } else {
                    inflow
                },
                total_outflow_lamports: if balance >= last {
                    outflow
                } else {
                    (outflow + (last - balance)) as u64
                },
                last_recorded_balance_lamports: balance,
                updated_at: now,
                ..*old(vault_state)
            })
        }),
{
    validate_kind(kind)?;
    if !vault_state.parent.same(&parent) {
        return Err(TicketingError::InvalidVaultParent);
    }
    if vault_state.kind != kind {
        return Err(TicketingError::InvalidVaultKind);
    }
    if !vault_state.vault.same(&vault) {
        return Err(TicketingError::InvalidVaultParent);
    }
    let last = vault_state.last_recorded_balance_lamports;
    if balance >= last {
        let delta = balance - last;
        let inflow = match vault_state.total_inflow_lamports.checked_add(delta) {
            Some(v) => v,
            None => return Err(TicketingError::MathOverflow),
        };
        vault_state.total_inflow_lamports = inflow;
    } else {
        let delta = last - balance;
        let outflow = match vault_state.total_outflow_lamports.checked_add(delta) {
            Some(v) => v,
            None => return Err(TicketingError::MathOverflow),
        };
        vault_state.total_outflow_lamports = outflow;
    }
    vault_state.last_recorded_balance_lamports = balance;
    vault_state.updated_at = now;
    Ok(())
}

/// The role a delegate needs to act on a vault of a kind: (scope, role).
pub open spec fn vault_role(kind: u8) -> (u8, u8) {
    if kind == VAULT_KIND_PROTOCOL || kind == VAULT_KIND_FINANCING {
        (ROLE_SCOPE_PROTOCOL, ROLE_PROTOCOL_ADMIN)
    } else {
        (ROLE_SCOPE_ORGANIZER, ROLE_ORGANIZER_ADMIN)
    }
}

/// Whether `authority` may pay out of a vault: it is the vault's
/// authority, or holds the admin role that the vault's kind calls for over
/// the vault's controller (refused with `InvalidVaultKind` for a kind that
/// is none of the four).
pub open spec fn spec_withdraw_authorized(
    authority: Key,
    state: VaultAccount,
    proof_binding: RoleBindingProof,
    now: i64,
) -> Result<bool, TicketingError> {
    if authority@ == state.authority@ {
        Ok(true)
    } else if !valid_vault_kind(state.kind) {
        Err(TicketingError::InvalidVaultKind)
    } else {
        spec_authorized_with_role(
            authority,
            state.authority,
            state.controller,
            vault_role(state.kind).1,
            vault_role(state.kind).0,
            proof_binding.key,
            proof_binding.binding,
            proof_binding.program_id,
            now,
        )
    }
}

/// Whether `authority` may pay out of a vault.
pub fn is_withdraw_authorized(
    authority: &Key,
    vault_state: &VaultAccount,
    proof_binding: &RoleBindingProof,
    now: i64,
) -> (r: Result<bool, TicketingError>)
    ensures
        r == spec_withdraw_authorized(*authority, *vault_state, *proof_binding, now),
{
    if authority.same(&vault_state.authority) {
        return Ok(true);
    }
    let kind = vault_state.kind;
    let (scope, role) = if kind == VAULT_KIND_PROTOCOL || kind == VAULT_KIND_FINANCING {
        (ROLE_SCOPE_PROTOCOL, ROLE_PROTOCOL_ADMIN)
    } else if kind == VAULT_KIND_ORGANIZER || kind == VAULT_KIND_EVENT {
        (ROLE_SCOPE_ORGANIZER, ROLE_ORGANIZER_ADMIN)
    } else {
        return Err(TicketingError::InvalidVaultKind);
    };
    is_authorized_with_role(
        authority,
        &vault_state.authority,
        &vault_state.controller,
        role,
        scope,
        &proof_binding.key,
        &proof_binding.binding,
        &proof_binding.program_id,
        now,
    )
}

/// The first reason a withdrawal is refused, if any.
pub open spec fn withdraw_vault_error(
    state: VaultAccount,
    proof_binding: RoleBindingProof,
    vault: Key,
    kind: u8,
    parent: Key,
    authority: Key,
    amount_lamports: u64,
    balance: u64,
    now: i64,
) -> Option<TicketingError> {
    if amount_lamports == 0 {
        Some(TicketingError::InvalidSettlementAmount)
    } else if !valid_vault_kind(kind) {
        Some(TicketingError::InvalidVaultKind)
    } else if state.kind != kind {
        Some(TicketingError::InvalidVaultKind)
    } else if state.parent@ != parent@ {
        Some(TicketingError::InvalidVaultParent)
    } else if state.vault@ != vault@ {
        Some(TicketingError::InvalidVaultParent)
    } else {
        match spec_withdraw_authorized(authority, state, proof_binding, now) {
            Err(e) => Some(e),
            Ok(false) => Some(TicketingError::Unauthorized),
            Ok(true) => if balance < amount_lamports {
                Some(TicketingError::InsufficientVaultBalance)
            } else if state.total_outflow_lamports + amount_lamports > u64::MAX {
                Some(TicketingError::MathOverflow)
            } else {
                None
            },
        }
    }
}

/// Pays lamports out of a vault. The vault's authority may do so, or a
/// delegate holding the matching admin role.
///
/// Refused, with the state unchanged, for the first reason of
/// `withdraw_vault_error`; otherwise the app moves `amount_lamports` out of
/// the funds account, and the state counts it as outflow and records the
/// balance left.
pub fn withdraw_vault(
    vault_state: &mut VaultAccount,
    proof_binding: &RoleBindingProof,
    vault: Key,
    kind: u8,
    parent: Key,
    authority: Key,
    amount_lamports: u64,
    balance: u64,
    now: i64,
) -> (r: Result<(), TicketingError>)
    ensures
        ({
            let err = withdraw_vault_error(
                *old(vault_state),
                *proof_binding,
                vault,
                kind,
                parent,
                authority,
                amount_lamports,
                balance,
                now,
            );
            &&& err is Some ==> r == Err::<(), TicketingError>(err.unwrap()) && *final(vault_state) == *old(vault_state)
            &&& err is None ==> r is Ok && *final(vault_state) == (VaultAccount {
                total_outflow_lamports: (old(vault_state).total_outflow_lamports
                    + amount_lamports) as u64,
                last_recorded_balance_lamports: (balance - amount_lamports) as u64,
                updated_at: now,
                ..*old(vault_state)
            })
        }),
{
    if amount_lamports == 0 {
        return Err(TicketingError::InvalidSettlementAmount);
    }
    validate_kind(kind)?;
    if vault_state.kind != kind {
        return Err(TicketingError::InvalidVaultKind);
    }
    if !vault_state.parent.same(&parent) {
        return Err(TicketingError::InvalidVaultParent);
    }
    if !vault_state.vault.same(&vault) {
        return Err(TicketingError::InvalidVaultParent);
    }
    let ok = is_withdraw_authorized(&authority, vault_state, proof_binding, now)?;
    if !ok {
        return Err(TicketingError::Unauthorized);
    }
    if balance < amount_lamports {
        return Err(TicketingError::InsufficientVaultBalance);
    }
    let outflow = match vault_state.total_outflow_lamports.checked_add(amount_lamports) {
        Some(v) => v,
        None => return Err(TicketingError::MathOverflow),
    };
    vault_state.total_outflow_lamports = outflow;
    vault_state.last_recorded_balance_lamports = balance - amount_lamports;
    vault_state.updated_at = now;
    Ok(())
}

/// Whether a vault's totals account for its recorded balance: what came in
/// less what went out is the balance less `opening`.
pub open spec fn vault_flows_balanced(state: VaultAccount, opening: int) -> bool {
    state.total_inflow_lamports - state.total_outflow_lamports
        == state.last_recorded_balance_lamports - opening
}

/// Law: snapshots and withdrawals keep a vault's flows accounting for its
/// balance.
pub proof fn law_vault_flows_stay_balanced(
    before: VaultAccount,
    after_snapshot: VaultAccount,
    after_withdraw: VaultAccount,
    opening: int,
    vault: Key,
    kind: u8,
    parent: Key,
    balance: u64,
    amount: u64,
    now: i64,
)
    requires
        vault_flows_balanced(before, opening),
        vault_identity_error(before, vault, kind, parent) is None,
        balance >= before.last_recorded_balance_lamports ==> before.total_inflow_lamports + (
        balance - before.last_recorded_balance_lamports) <= u64::MAX,
        balance < before.last_recorded_balance_lamports ==> before.total_outflow_lamports + (
        before.last_recorded_balance_lamports - balance) <= u64::MAX,
        after_snapshot == (VaultAccount {
            total_inflow_lamports: if balance >= before.last_recorded_balance_lamports {
                (before.total_inflow_lamports + (balance
                    - before.last_recorded_balance_lamports)) as u64
            } else {
                before.total_inflow_lamports
            },
            total_outflow_lamports: if balance >= before.last_recorded_balance_lamports {
                before.total_outflow_lamports
            } else {
                (before.total_outflow_lamports + (before.last_recorded_balance_lamports
                    - balance)) as u64
            },
            last_recorded_balance_lamports: balance,
            updated_at: now,
            ..before
        }),
        amount <= before.last_recorded_balance_lamports,
        before.total_outflow_lamports + amount <= u64::MAX,
        after_withdraw == (VaultAccount {
            total_outflow_lamports: (before.total_outflow_lamports + amount) as u64,
            last_recorded_balance_lamports: (before.last_recorded_balance_lamports
                - amount) as u64,
            updated_at: now,
            ..before
        }),
    ensures
        vault_flows_balanced(after_snapshot, opening),
        vault_flows_balanced(after_withdraw, opening),
{
}

} // verus!
