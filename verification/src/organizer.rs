//! Organizers: registration, profile, status, compliance flags and operators.

use vstd::prelude::*;

use crate::constants::MAX_ORGANIZER_METADATA_URI_LEN;
use crate::error::TicketingError;
use crate::key::Key;
use crate::state::{OrganizerOperator, OrganizerProfile, OrganizerStatus, ProtocolConfig};
use crate::text::{byte_len, text_len};

verus! {

/// The first reason registering an organizer is refused, if any.
pub open spec fn create_organizer_error(protocol_config: ProtocolConfig, metadata_uri: Seq<char>) -> Option<
    TicketingError,
> {
    if byte_len(metadata_uri) > MAX_ORGANIZER_METADATA_URI_LEN {
        Some(TicketingError::InvalidMetadataUriLength)
    } else if protocol_config.is_paused {
        Some(TicketingError::ProtocolPaused)
    } else {
        None
    }
}

/// An authority registers itself as an active organizer, with a payout
/// wallet and a metadata URI.
///
/// Refused for the first reason of `create_organizer_error`, the account
/// unchanged.
pub fn create_organizer(
    protocol_config: &ProtocolConfig,
    organizer_profile: &mut OrganizerProfile,
    profile_bump: u8,
    authority: &Key,
    metadata_uri: String,
    payout_wallet: &Key,
    now: i64,
) -> (r: Result<(), TicketingError>)
    ensures
        ({
            let err = create_organizer_error(*protocol_config, metadata_uri@);
            &&& err is Some ==> r == Err::<(), TicketingError>(err.unwrap()) && *final(organizer_profile) == *old(organizer_profile)
            &&& err is None ==> r is Ok && final(organizer_profile).metadata_uri@ == metadata_uri@
                && *final(organizer_profile) == (OrganizerProfile {
                bump: profile_bump,
                authority: *authority,
                payout_wallet: *payout_wallet,
                status: OrganizerStatus::Active,
                compliance_flags: 0,
                metadata_uri: final(organizer_profile).metadata_uri,
                created_at: now,
                updated_at: now,
            })
        }),
{
    if text_len(&metadata_uri) > MAX_ORGANIZER_METADATA_URI_LEN {
        return Err(TicketingError::InvalidMetadataUriLength);
    }
    if protocol_config.is_paused {
        return Err(TicketingError::ProtocolPaused);
    }
    organizer_profile.bump = profile_bump;
    organizer_profile.authority = *authority;
    organizer_profile.payout_wallet = *payout_wallet;
    organizer_profile.status = OrganizerStatus::Active;
    organizer_profile.compliance_flags = 0;
    organizer_profile.metadata_uri = metadata_uri;
    organizer_profile.created_at = now;
    organizer_profile.updated_at = now;
    Ok(())
}

/// The organizer changes its metadata URI and payout wallet. Refused with
/// `InvalidMetadataUriLength`, the profile unchanged, for a URI too long.
pub fn update_organizer(
    organizer_profile: &mut OrganizerProfile,
    metadata_uri: String,
    payout_wallet: &Key,
    now: i64,
) -> (r: Result<(), TicketingError>)
    ensures
        byte_len(metadata_uri@) > MAX_ORGANIZER_METADATA_URI_LEN ==> r == Err::<
            (),
            TicketingError,
        >(TicketingError::InvalidMetadataUriLength) && *final(organizer_profile) == *old(organizer_profile),
        byte_len(metadata_uri@) <= MAX_ORGANIZER_METADATA_URI_LEN ==> r is Ok && final(organizer_profile).metadata_uri@ == metadata_uri@ && *final(organizer_profile) == (OrganizerProfile {
            metadata_uri: final(organizer_profile).metadata_uri,
            payout_wallet: *payout_wallet,
            updated_at: now,
            ..*old(organizer_profile)
        }),
{
    if text_len(&metadata_uri) > MAX_ORGANIZER_METADATA_URI_LEN {
        return Err(TicketingError::InvalidMetadataUriLength);
    }
    organizer_profile.metadata_uri = metadata_uri;
    organizer_profile.payout_wallet = *payout_wallet;
    organizer_profile.updated_at = now;
    Ok(())
}

/// The organizer status a number stands for, if any.
pub open spec fn organizer_status_of_code(v: u8) -> Option<OrganizerStatus> {
    if v == 1 {
        Some(OrganizerStatus::Active)
    } else if v == 2 {
        Some(OrganizerStatus::Suspended)
    } else {
        None
    }
}

/// The admin activates or suspends an organizer. Refused with
/// `InvalidOrganizerStatus`, the profile unchanged, for a number that
/// stands for no status.
pub fn set_organizer_status(organizer_profile: &mut OrganizerProfile, status: u8, now: i64) -> (r:
    Result<(), TicketingError>)
    ensures
        match organizer_status_of_code(status) {
            None => r == Err::<(), TicketingError>(TicketingError::InvalidOrganizerStatus)
                && *final(organizer_profile) == *old(organizer_profile),
            Some(s) => r is Ok && *final(organizer_profile) == (OrganizerProfile {
                status: s,
                updated_at: now,
                ..*old(organizer_profile)
            }),
        },
{
    let next = if status == 1 {
        OrganizerStatus::Active
    } else if status == 2 {
        OrganizerStatus::Suspended
    } else {
        return Err(TicketingError::InvalidOrganizerStatus);
    };
    organizer_profile.status = next;
    organizer_profile.updated_at = now;
    Ok(())
}

/// The admin sets an organizer's compliance flags.
pub fn set_organizer_compliance_flags(
    organizer_profile: &mut OrganizerProfile,
    compliance_flags: u32,
    now: i64,
)
    ensures
        *final(organizer_profile) == (OrganizerProfile {
            compliance_flags,
            updated_at: now,
            ..*old(organizer_profile)
        }),
{
    organizer_profile.compliance_flags = compliance_flags;
    organizer_profile.updated_at = now;
}

/// The organizer registers an operator with a permission word, active or
/// not.
pub fn set_organizer_operator(
    organizer_operator: &mut OrganizerOperator,
    operator_bump: u8,
    organizer_profile_key: &Key,
    operator: &Key,
    permissions: u32,
    active: bool,
    now: i64,
)
    ensures
        *final(organizer_operator) == (OrganizerOperator {
            bump: operator_bump,
            organizer: *organizer_profile_key,
            operator: *operator,
            permissions,
            active,
            updated_at: now,
        }),
{
    organizer_operator.bump = operator_bump;
    organizer_operator.organizer = *organizer_profile_key;
    organizer_operator.operator = *operator;
    organizer_operator.permissions = permissions;
    organizer_operator.active = active;
    organizer_operator.updated_at = now;
}

} // verus!
