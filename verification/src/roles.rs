//! Role bindings: granting, revoking and rotating roles, and acting through
//! one.

use vstd::prelude::*;

use crate::constants::{
    ROLE_OPERATOR, ROLE_ORGANIZER_ADMIN, ROLE_PROTOCOL_ADMIN, ROLE_SCANNER, ROLE_SCOPE_ORGANIZER,
    ROLE_SCOPE_PROTOCOL,
};
use crate::correlation::{correlation_id_of, derive_correlation_id};
use crate::error::TicketingError;
use crate::key::Key;
use crate::pda::{
    find_program_address, key_bytes, program_address, seed_organizer, seed_role_binding, seeds2,
    seeds4, spec_seed_organizer, spec_seed_role_binding,
};
use crate::state::{OrganizerProfile, ProtocolConfig, RoleBinding};

verus! {

/// Whether a binding currently grants `role` in `scope` over `controller` to
/// `authority`: it is active, matches all four, has started, and has not
/// expired (an expiry of zero never expires).
pub open spec fn spec_role_is_active(
    binding: RoleBinding,
    role: u8,
    scope: u8,
    controller: Key,
    authority: Key,
    now: i64,
) -> bool {
    &&& binding.active
    &&& binding.role == role
    &&& binding.scope == scope
    &&& binding.target@ == controller@
    &&& binding.subject@ == authority@
    &&& binding.starts_at <= now
    &&& (binding.expires_at == 0 || now < binding.expires_at)
}

/// Whether a binding currently grants `role` in `scope` over `controller` to
/// `authority`.
pub fn role_is_active(
    binding: &RoleBinding,
    role: u8,
    scope: u8,
    controller: &Key,
    authority: &Key,
    now: i64,
) -> (r: bool)
    ensures
        r == spec_role_is_active(*binding, role, scope, *controller, *authority, now),
{
    binding.active && binding.role == role && binding.scope == scope && binding.target.same(
        controller,
    ) && binding.subject.same(authority) && binding.starts_at <= now && (binding.expires_at == 0
        || now < binding.expires_at)
}

/// The address of the binding of `role` over `controller` for `subject`.
pub open spec fn role_binding_address(
    controller: Key,
    role: u8,
    subject: Key,
    program_id: Key,
) -> Option<(Seq<u8>, u8)> {
    program_address(
        seq![spec_seed_role_binding(), controller@, seq![role], subject@],
        program_id@,
    )
}

/// The address of the organizer profile of `authority`.
pub open spec fn organizer_profile_address(authority: Key, program_id: Key) -> Option<
    (Seq<u8>, u8),
> {
    program_address(seq![spec_seed_organizer(), authority@], program_id@)
}

/// Derives the address of a role binding.
pub fn find_role_binding_address(
    controller: &Key,
    role: u8,
    subject: &Key,
    program_id: &Key,
) -> (r: Option<(Key, u8)>)
    ensures
        match r {
            Some(found) => role_binding_address(*controller, role, *subject, *program_id) == Some(
                (found.0@, found.1),
            ),
            None => role_binding_address(*controller, role, *subject, *program_id) is None,
        },
{
    let role_seed = vec![role];
    assert(role_seed@ =~= seq![role]);
    let seeds = seeds4(seed_role_binding(), key_bytes(controller), role_seed, key_bytes(subject));
    find_program_address(&seeds, program_id)
}

/// Derives the address of an organizer profile.
pub fn find_organizer_profile_address(authority: &Key, program_id: &Key) -> (r: Option<
    (Key, u8),
>)
    ensures
        match r {
            Some(found) => organizer_profile_address(*authority, *program_id) == Some(
                (found.0@, found.1),
            ),
            None => organizer_profile_address(*authority, *program_id) is None,
        },
{
    let seeds = seeds2(seed_organizer(), key_bytes(authority));
    find_program_address(&seeds, program_id)
}

/// Whether `authority` acts for `primary_authority` over `controller`: it is
/// that authority itself, or the account at `role_binding_key` is the
/// authority's binding of `role` over `controller` and is active now.
/// `role_binding` is that account's contents, when it holds a binding.
/// Refused with `ProgramAddressNotFound` when the binding's address cannot
/// be derived.
pub open spec fn spec_authorized_with_role(
    authority: Key,
    primary_authority: Key,
    controller: Key,
    role: u8,
    scope: u8,
    role_binding_key: Key,
    role_binding: Option<RoleBinding>,
    program_id: Key,
    now: i64,
) -> Result<bool, TicketingError> {
    if authority@ == primary_authority@ {
        Ok(true)
    } else {
        match role_binding_address(controller, role, authority, program_id) {
            None => Err(TicketingError::ProgramAddressNotFound),
            Some(found) => if role_binding_key@ != found.0 {
                Ok(false)
            } else {
                match role_binding {
                    None => Ok(false),
                    Some(b) => Ok(spec_role_is_active(b, role, scope, controller, authority, now)),
                }
            },
        }
    }
}

/// Whether `authority` acts for `primary_authority` over `controller`,
/// directly or through an active role binding.
pub fn is_authorized_with_role(
    authority: &Key,
    primary_authority: &Key,
    controller: &Key,
    role: u8,
    scope: u8,
    role_binding_key: &Key,
    role_binding: &Option<RoleBinding>,
    program_id: &Key,
    now: i64,
) -> (r: Result<bool, TicketingError>)
    ensures
        r == spec_authorized_with_role(
            *authority,
            *primary_authority,
            *controller,
            role,
            scope,
            *role_binding_key,
            *role_binding,
            *program_id,
            now,
        ),
{
    if authority.same(primary_authority) {
        return Ok(true);
    }
    let expected = match find_role_binding_address(controller, role, authority, program_id) {
        Some(found) => found.0,
        None => return Err(TicketingError::ProgramAddressNotFound),
    };
    if !role_binding_key.same(&expected) {
        return Ok(false);
    }
    match role_binding {
        None => Ok(false),
        Some(b) => Ok(role_is_active(b, role, scope, controller, authority, now)),
    }
}

/// Which roles a scope admits: only the protocol admin role at protocol
/// scope; organizer admin, operator or scanner at organizer scope.
pub open spec fn spec_validate_role(scope: u8, role: u8) -> Option<TicketingError> {
    if scope == ROLE_SCOPE_PROTOCOL {
        if role == ROLE_PROTOCOL_ADMIN {
            None
        } else {
            Some(TicketingError::InvalidRole)
        }
    } else if scope == ROLE_SCOPE_ORGANIZER {
        if role == ROLE_ORGANIZER_ADMIN || role == ROLE_OPERATOR || role == ROLE_SCANNER {
            None
        } else {
            Some(TicketingError::InvalidRole)
        }
    } else {
        Some(TicketingError::InvalidRoleScope)
    }
}

/// Checks that a scope admits a role.
pub fn validate_role(scope: u8, role: u8) -> (r: Result<(), TicketingError>)
    ensures
        match spec_validate_role(scope, role) {
            Some(e) => r == Err::<(), TicketingError>(e),
            None => r is Ok,
        },
{
    if scope == ROLE_SCOPE_PROTOCOL {
        if role == ROLE_PROTOCOL_ADMIN {
            Ok(())
        } else {
            Err(TicketingError::InvalidRole)
        }
    } else if scope == ROLE_SCOPE_ORGANIZER {
        if role == ROLE_ORGANIZER_ADMIN || role == ROLE_OPERATOR || role == ROLE_SCANNER {
            Ok(())
        } else {
            Err(TicketingError::InvalidRole)
        }
    } else {
        Err(TicketingError::InvalidRoleScope)
    }
}

/// Whether `granter` may grant organizer-scope roles over `target`: it is
/// the protocol admin, or `target` is the granter's own organizer profile
/// (`organizer_profile_key`, whose contents are `organizer_profile` when it
/// holds a profile).
pub open spec fn spec_organizer_authorized(
    granter: Key,
    protocol_admin: Key,
    target: Key,
    organizer_profile_key: Key,
    organizer_profile: Option<OrganizerProfile>,
    program_id: Key,
) -> Result<bool, TicketingError> {
    if granter@ == protocol_admin@ {
        Ok(true)
    } else {
        match organizer_profile_address(granter, program_id) {
            None => Err(TicketingError::ProgramAddressNotFound),
            Some(found) => if organizer_profile_key@ != found.0 || target@
                != organizer_profile_key@ {
                Ok(false)
            } else {
                match organizer_profile {
                    None => Ok(false),
                    Some(p) => Ok(p.authority@ == granter@),
                }
            },
        }
    }
}

/// Whether `granter` may grant organizer-scope roles over `target`.
pub fn is_organizer_authorized(
    granter: &Key,
    protocol_admin: &Key,
    target: &Key,
    organizer_profile_key: &Key,
    organizer_profile: &Option<OrganizerProfile>,
    program_id: &Key,
) -> (r: Result<bool, TicketingError>)
    ensures
        r == spec_organizer_authorized(
            *granter,
            *protocol_admin,
            *target,
            *organizer_profile_key,
            *organizer_profile,
            *program_id,
        ),
{
    if granter.same(protocol_admin) {
        return Ok(true);
    }
    let expected = match find_organizer_profile_address(granter, program_id) {
        Some(found) => found.0,
        None => return Err(TicketingError::ProgramAddressNotFound),
    };
    if !organizer_profile_key.same(&expected) || !target.same(organizer_profile_key) {
        return Ok(false);
    }
    match organizer_profile {
        None => Ok(false),
        Some(p) => Ok(p.authority.same(granter)),
    }
}

/// The accounts a role grant or revocation is checked against.
#[derive(Clone, Debug)]
pub struct RoleContext {
    pub protocol_config_key: Key,
    pub target: Key,
    pub subject: Key,
    pub organizer_profile_key: Key,
    pub organizer_profile: Option<OrganizerProfile>,
    pub program_id: Key,
}

/// The first reason a grant is refused, if any.
pub open spec fn grant_role_error(
    protocol_config: ProtocolConfig,
    ctx: RoleContext,
    granter: Key,
    role: u8,
    scope: u8,
    starts_at: i64,
    expires_at: i64,
) -> Option<TicketingError> {
    if spec_validate_role(scope, role) is Some {
        spec_validate_role(scope, role)
    } else if !(expires_at == 0 || expires_at >= starts_at) {
        Some(TicketingError::InvalidRoleGrantWindow)
    } else if scope == ROLE_SCOPE_PROTOCOL {
        if ctx.target@ != ctx.protocol_config_key@ || granter@ != protocol_config.admin@ {
            Some(TicketingError::Unauthorized)
        } else {
            None
        }
    } else {
        match spec_organizer_authorized(
            granter,
            protocol_config.admin,
            ctx.target,
            ctx.organizer_profile_key,
            ctx.organizer_profile,
            ctx.program_id,
        ) {
            Err(e) => Some(e),
            Ok(false) => Some(TicketingError::Unauthorized),
            Ok(true) => None,
        }
    }
}

/// Whether `b` is the binding `prev` becomes when `role` is granted.
pub open spec fn is_granted_binding(
    b: RoleBinding,
    prev: RoleBinding,
    bump: u8,
    role: u8,
    scope: u8,
    target: Key,
    subject: Key,
    granter: Key,
    starts_at: i64,
    expires_at: i64,
    audit_reference: [u8; 16],
    correlation_id: [u8; 16],
    now: i64,
) -> bool {
    b == RoleBinding {
        bump,
        role,
        scope,
        active: true,
        target,
        subject,
        granted_by: granter,
        starts_at,
        expires_at,
        revoked_at: 0,
        last_audit_reference: audit_reference,
        last_correlation_id: correlation_id,
        created_at: if prev.created_at == 0 {
            now
        } else {
            prev.created_at
        },
        updated_at: now,
    }
}

/// Grants `role` in `scope` over the target to the subject, for the window
/// from `starts_at` to `expires_at` (zero: no expiry). Protocol-scope roles
/// are granted by the protocol admin over the protocol configuration;
/// organizer-scope roles by the protocol admin or by the organizer over its
/// own profile.
///
/// Refused, with the binding unchanged, for the first reason of
/// `grant_role_error`; otherwise the binding is (re)written as granted.
pub fn grant_role(
    protocol_config: &ProtocolConfig,
    ctx: &RoleContext,
    role_binding: &mut RoleBinding,
    binding_bump: u8,
    granter: Key,
    role: u8,
    scope: u8,
    starts_at: i64,
    expires_at: i64,
    role_binding_key: Key,
    now: i64,
) -> (r: Result<(), TicketingError>)
    ensures
        ({
            let err = grant_role_error(
                *protocol_config,
                *ctx,
                granter,
                role,
                scope,
                starts_at,
                expires_at,
            );
            &&& err is Some ==> r == Err::<(), TicketingError>(err.unwrap()) && *final(role_binding) == *old(role_binding)
            &&& err is None ==> r is Ok && is_granted_binding(
                *final(role_binding),
                *old(role_binding),
                binding_bump,
                role,
                scope,
                ctx.target,
                ctx.subject,
                granter,
                starts_at,
                expires_at,
                final(role_binding).last_audit_reference,
                final(role_binding).last_correlation_id,
                now,
            ) && final(role_binding).last_audit_reference@ == correlation_id_of(
                role_binding_key,
                granter,
                now,
                scope as u16,
            ) && final(role_binding).last_correlation_id@ == correlation_id_of(
                ctx.target,
                ctx.subject,
                now,
                role as u16,
            )
        }),
{
    validate_role(scope, role)?;
    if !(expires_at == 0 || expires_at >= starts_at) {
        return Err(TicketingError::InvalidRoleGrantWindow);
    }
    if scope == ROLE_SCOPE_PROTOCOL {
        if !ctx.target.same(&ctx.protocol_config_key) {
            return Err(TicketingError::Unauthorized);
        }
        if !granter.same(&protocol_config.admin) {
            return Err(TicketingError::Unauthorized);
        }
    } else {
        let ok = is_organizer_authorized(
            &granter,
            &protocol_config.admin,
            &ctx.target,
            &ctx.organizer_profile_key,
            &ctx.organizer_profile,
            &ctx.program_id,
        )?;
        if !ok {
            return Err(TicketingError::Unauthorized);
        }
    }
    role_binding.bump = binding_bump;
    role_binding.role = role;
    role_binding.scope = scope;
    role_binding.active = true;
    role_binding.target = ctx.target;
    role_binding.subject = ctx.subject;
    role_binding.granted_by = granter;
    role_binding.starts_at = starts_at;
    role_binding.expires_at = expires_at;
    role_binding.revoked_at = 0;
    let correlation_id = derive_correlation_id(&ctx.target, &ctx.subject, now, role as u16);
    let audit_reference = derive_correlation_id(&role_binding_key, &granter, now, scope as u16);
    role_binding.last_audit_reference = audit_reference;
    role_binding.last_correlation_id = correlation_id;
    if role_binding.created_at == 0 {
        role_binding.created_at = now;
    }
    role_binding.updated_at = now;
    Ok(())
}

/// The first reason a revocation is refused, if any.
pub open spec fn revoke_role_error(
    protocol_config: ProtocolConfig,
    ctx: RoleContext,
    binding: RoleBinding,
    revoker: Key,
    role: u8,
    scope: u8,
) -> Option<TicketingError> {
    if !(binding.role == role && binding.scope == scope) {
        Some(TicketingError::InvalidRole)
    } else if binding.subject@ != ctx.subject@ {
        Some(TicketingError::Unauthorized)
    } else if scope == ROLE_SCOPE_PROTOCOL {
        if revoker@ != protocol_config.admin@ {
            Some(TicketingError::Unauthorized)
        } else if !binding.active {
            Some(TicketingError::RoleNotActive)
        } else {
            None
        }
    } else if scope == ROLE_SCOPE_ORGANIZER {
        if revoker@ != protocol_config.admin@ && organizer_profile_address(
            revoker,
            ctx.program_id,
        ) is None {
            Some(TicketingError::ProgramAddressNotFound)
        } else if revoker@ != protocol_config.admin@ && ctx.organizer_profile_key@
            != organizer_profile_address(revoker, ctx.program_id).unwrap().0 {
            Some(TicketingError::Unauthorized)
        } else if revoker@ != protocol_config.admin@ && ctx.organizer_profile is None {
            Some(TicketingError::Unauthorized)
        } else if revoker@ != protocol_config.admin@ && ctx.organizer_profile.unwrap().authority@
            != revoker@ {
            Some(TicketingError::Unauthorized)
        } else if binding.target@ != ctx.target@ {
            Some(TicketingError::Unauthorized)
        } else if !binding.active {
            Some(TicketingError::RoleNotActive)
        } else {
            None
        }
    } else {
        Some(TicketingError::InvalidRoleScope)
    }
}

/// Revokes a binding. Protocol-scope bindings are revoked by the protocol
/// admin; organizer-scope bindings by the protocol admin or the organizer
/// that owns the target.
///
/// Refused, with the binding unchanged, for the first reason of
/// `revoke_role_error`; otherwise the binding is marked inactive and revoked
/// now, with the given audit identifiers.
pub fn revoke_role(
    protocol_config: &ProtocolConfig,
    ctx: &RoleContext,
    role_binding: &mut RoleBinding,
    revoker: Key,
    role: u8,
    scope: u8,
    role_binding_key: Key,
    reason_code: u16,
    now: i64,
) -> (r: Result<(), TicketingError>)
    ensures
        ({
            let err = revoke_role_error(
                *protocol_config,
                *ctx,
                *old(role_binding),
                revoker,
                role,
                scope,
            );
            &&& err is Some ==> r == Err::<(), TicketingError>(err.unwrap()) && *final(role_binding) == *old(role_binding)
            &&& err is None ==> r is Ok && *final(role_binding) == (RoleBinding {
                active: false,
                revoked_at: now,
                last_audit_reference: final(role_binding).last_audit_reference,
                last_correlation_id: final(role_binding).last_correlation_id,
                updated_at: now,
                ..*old(role_binding)
            }) && final(role_binding).last_audit_reference@ == correlation_id_of(
                role_binding_key,
                revoker,
                now,
                reason_code,
            ) && final(role_binding).last_correlation_id@ == correlation_id_of(
                old(role_binding).target,
                old(role_binding).subject,
                now,
                role as u16,
            )
        }),
{
    if !(role_binding.role == role && role_binding.scope == scope) {
        return Err(TicketingError::InvalidRole);
    }
    if !role_binding.subject.same(&ctx.subject) {
        return Err(TicketingError::Unauthorized);
    }
    if scope == ROLE_SCOPE_PROTOCOL {
        if !revoker.same(&protocol_config.admin) {
            return Err(TicketingError::Unauthorized);
        }
    } else if scope == ROLE_SCOPE_ORGANIZER {
        if !revoker.same(&protocol_config.admin) {
            let expected = match find_organizer_profile_address(&revoker, &ctx.program_id) {
                Some(found) => found.0,
                None => return Err(TicketingError::ProgramAddressNotFound),
            };
            if !ctx.organizer_profile_key.same(&expected) {
                return Err(TicketingError::Unauthorized);
            }
            match &ctx.organizer_profile {
                None => return Err(TicketingError::Unauthorized),
                Some(p) => {
                    if !p.authority.same(&revoker) {
                        return Err(TicketingError::Unauthorized);
                    }
                },
            }
        }
        if !role_binding.target.same(&ctx.target) {
            return Err(TicketingError::Unauthorized);
        }
    } else {
        return Err(TicketingError::InvalidRoleScope);
    }
    if !role_binding.active {
        return Err(TicketingError::RoleNotActive);
    }
    role_binding.active = false;
    role_binding.revoked_at = now;
    let correlation_id = derive_correlation_id(
        &role_binding.target,
        &role_binding.subject,
        now,
        role as u16,
    );
    let audit_reference = derive_correlation_id(&role_binding_key, &revoker, now, reason_code);
    role_binding.last_audit_reference = audit_reference;
    role_binding.last_correlation_id = correlation_id;
    role_binding.updated_at = now;
    Ok(())
}

/// The first reason a rotation is refused, if any.
pub open spec fn rotate_authority_error(
    old_binding: RoleBinding,
    target: Key,
    authority: Key,
    role: u8,
    scope: u8,
    starts_at: i64,
    expires_at: i64,
) -> Option<TicketingError> {
    if !(expires_at == 0 || expires_at >= starts_at) {
        Some(TicketingError::InvalidRoleGrantWindow)
    } else if !old_binding.active {
        Some(TicketingError::RoleNotActive)
    } else if !(old_binding.role == role && old_binding.scope == scope) {
        Some(TicketingError::InvalidRole)
    } else if old_binding.target@ != target@ {
        Some(TicketingError::Unauthorized)
    } else if old_binding.granted_by@ != authority@ {
        Some(TicketingError::Unauthorized)
    } else {
        None
    }
}

/// Moves a role from one subject to another. Only whoever granted the old
/// binding may rotate it.
///
/// Refused, with both bindings unchanged, for the first reason of
/// `rotate_authority_error`; otherwise the old binding is revoked now and
/// the new one is written as granted by `authority` to `new_subject`.
pub fn rotate_authority(
    old_binding: &mut RoleBinding,
    new_binding: &mut RoleBinding,
    new_binding_bump: u8,
    target: Key,
    new_subject: Key,
    authority: Key,
    role: u8,
    scope: u8,
    starts_at: i64,
    expires_at: i64,
    old_binding_key: Key,
    new_binding_key: Key,
    now: i64,
) -> (r: Result<(), TicketingError>)
    ensures
        ({
            let err = rotate_authority_error(
                *old(old_binding),
                target,
                authority,
                role,
                scope,
                starts_at,
                expires_at,
            );
            &&& err is Some ==> r == Err::<(), TicketingError>(err.unwrap()) && *final(old_binding) == *old(old_binding) && *final(new_binding) == *old(new_binding)
            &&& err is None ==> r is Ok && *final(old_binding) == (RoleBinding {
                active: false,
                revoked_at: now,
                last_audit_reference: final(old_binding).last_audit_reference,
                last_correlation_id: final(old_binding).last_correlation_id,
                updated_at: now,
                ..*old(old_binding)
            }) && final(old_binding).last_audit_reference@ == correlation_id_of(
                old_binding_key,
                new_binding_key,
                now,
                scope as u16,
            ) && final(old_binding).last_correlation_id@ == correlation_id_of(
                target,
                new_subject,
                now,
                role as u16,
            ) && is_granted_binding(
                *final(new_binding),
                *old(new_binding),
                new_binding_bump,
                role,
                scope,
                target,
                new_subject,
                authority,
                starts_at,
                expires_at,
                final(old_binding).last_audit_reference,
                final(old_binding).last_correlation_id,
                now,
            )
        }),
{
    if !(expires_at == 0 || expires_at >= starts_at) {
        return Err(TicketingError::InvalidRoleGrantWindow);
    }
    if !old_binding.active {
        return Err(TicketingError::RoleNotActive);
    }
    if !(old_binding.role == role && old_binding.scope == scope) {
        return Err(TicketingError::InvalidRole);
    }
    if !old_binding.target.same(&target) {
        return Err(TicketingError::Unauthorized);
    }
    if !old_binding.granted_by.same(&authority) {
        return Err(TicketingError::Unauthorized);
    }
    old_binding.active = false;
    old_binding.revoked_at = now;
    let correlation_id = derive_correlation_id(&target, &new_subject, now, role as u16);
    let audit_reference = derive_correlation_id(
        &old_binding_key,
        &new_binding_key,
        now,
        scope as u16,
    );
    old_binding.last_audit_reference = audit_reference;
    old_binding.last_correlation_id = correlation_id;
    old_binding.updated_at = now;

    new_binding.bump = new_binding_bump;
    new_binding.role = role;
    new_binding.scope = scope;
    new_binding.active = true;
    new_binding.target = target;
    new_binding.subject = new_subject;
    new_binding.granted_by = authority;
    new_binding.starts_at = starts_at;
    new_binding.expires_at = expires_at;
    new_binding.revoked_at = 0;
    new_binding.last_audit_reference = audit_reference;
    new_binding.last_correlation_id = correlation_id;
    if new_binding.created_at == 0 {
        new_binding.created_at = now;
    }
    new_binding.updated_at = now;
    Ok(())
}

/// Law: a revoked binding grants nothing, whatever it is asked for.
pub proof fn law_revoked_role_grants_nothing(
    binding: RoleBinding,
    role: u8,
    scope: u8,
    controller: Key,
    authority: Key,
    now: i64,
)
    requires
        !binding.active,
    ensures
        !spec_role_is_active(binding, role, scope, controller, authority, now),
{
}

} // verus!
