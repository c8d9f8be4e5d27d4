//! Protocol set-up and the admin's settings.

use vstd::prelude::*;

use crate::constants::{
    DEFAULT_LOYALTY_MULTIPLIER_BPS, MAX_MAX_TICKETS_PER_WALLET, MAX_PROTOCOL_FEE_BPS,
};
use crate::error::TicketingError;
use crate::key::{zero_key, Key};
use crate::state::ProtocolConfig;

verus! {

/// The first reason fee and wallet-cap settings are refused, if any: a fee
/// above the maximum, or a per-wallet cap that is zero or above the maximum.
pub open spec fn protocol_settings_error(protocol_fee_bps: u16, max_tickets_per_wallet: u16) -> Option<
    TicketingError,
> {
    if protocol_fee_bps > MAX_PROTOCOL_FEE_BPS {
        Some(TicketingError::InvalidFeeBps)
    } else if !(max_tickets_per_wallet > 0 && max_tickets_per_wallet
        <= MAX_MAX_TICKETS_PER_WALLET) {
        Some(TicketingError::InvalidMaxTicketsPerWallet)
    } else {
        None
    }
}

/// Checks fee and wallet-cap settings.
pub fn validate_protocol_settings(protocol_fee_bps: u16, max_tickets_per_wallet: u16) -> (r: Result<
    (),
    TicketingError,
>)
    ensures
        match protocol_settings_error(protocol_fee_bps, max_tickets_per_wallet) {
            Some(e) => r == Err::<(), TicketingError>(e),
            None => r is Ok,
        },
{
    if protocol_fee_bps > MAX_PROTOCOL_FEE_BPS {
        return Err(TicketingError::InvalidFeeBps);
    }
    if !(max_tickets_per_wallet > 0 && max_tickets_per_wallet <= MAX_MAX_TICKETS_PER_WALLET) {
        return Err(TicketingError::InvalidMaxTicketsPerWallet);
    }
    Ok(())
}

/// What the protocol is set up with.
#[derive(Clone, Copy, Debug)]
pub struct ProtocolSetup {
    pub admin: Key,
    pub upgrade_authority: Key,
    pub treasury_vault: Key,
    pub fee_vault: Key,
    pub protocol_fee_bps: u16,
    pub max_tickets_per_wallet: u16,
}

/// The first reason setting up the protocol is refused, if any.
pub open spec fn initialize_protocol_error(setup: ProtocolSetup) -> Option<TicketingError> {
    if setup.admin@ == zero_key() || setup.upgrade_authority@ == zero_key() {
        Some(TicketingError::InvalidAuthority)
    } else {
        protocol_settings_error(setup.protocol_fee_bps, setup.max_tickets_per_wallet)
    }
}

/// The configuration as first set up: the given authorities, vaults, fee
/// and cap (also as the pending values), no timelock, no pending change or
/// handoff, no multisig, the admin as emergency admin, the neutral loyalty
/// multiplier, not paused, created now.
pub open spec fn is_initial_config(
    c: ProtocolConfig,
    config_bump: u8,
    setup: ProtocolSetup,
    now: i64,
) -> bool {
    &&& c.bump == config_bump
    &&& c.admin == setup.admin
    &&& c.upgrade_authority == setup.upgrade_authority
    &&& c.pending_upgrade_authority@ == zero_key()
    &&& c.upgrade_handoff_started_at == 0
    &&& c.upgrade_handoff_eta == 0
    &&& c.timelock_delay_secs == 0
    &&& c.pending_protocol_fee_bps == setup.protocol_fee_bps
    &&& c.pending_max_tickets_per_wallet == setup.max_tickets_per_wallet
    &&& c.config_change_eta == 0
    &&& !c.multisig_enabled
    &&& c.multisig_threshold == 0
    &&& c.multisig_signer_1@ == zero_key()
    &&& c.multisig_signer_2@ == zero_key()
    &&& c.multisig_signer_3@ == zero_key()
    &&& c.emergency_admin == setup.admin
    &&& c.emergency_action_nonce == 0
    &&& c.treasury_vault == setup.treasury_vault
    &&& c.fee_vault == setup.fee_vault
    &&& c.protocol_fee_bps == setup.protocol_fee_bps
    &&& c.loyalty_multiplier_bps == DEFAULT_LOYALTY_MULTIPLIER_BPS
    &&& c.max_tickets_per_wallet == setup.max_tickets_per_wallet
    &&& !c.is_paused
    &&& c.created_at == now
    &&& c.updated_at == now
}

/// Sets up the protocol configuration.
///
/// Refused for the first reason of `initialize_protocol_error`, the account
/// unchanged; otherwise it holds the configuration `is_initial_config`
/// describes.
pub fn initialize_protocol(
    protocol_config: &mut ProtocolConfig,
    config_bump: u8,
    setup: ProtocolSetup,
    now: i64,
) -> (r: Result<(), TicketingError>)
    ensures
        ({
            let err = initialize_protocol_error(setup);
            &&& err is Some ==> r == Err::<(), TicketingError>(err.unwrap()) && *final(protocol_config) == *old(protocol_config)
            &&& err is None ==> r is Ok && is_initial_config(
                *final(protocol_config),
                config_bump,
                setup,
                now,
            )
        }),
{
    if setup.admin.is_zero() || setup.upgrade_authority.is_zero() {
        return Err(TicketingError::InvalidAuthority);
    }
    validate_protocol_settings(setup.protocol_fee_bps, setup.max_tickets_per_wallet)?;
    protocol_config.bump = config_bump;
    protocol_config.admin = setup.admin;
    protocol_config.upgrade_authority = setup.upgrade_authority;
    protocol_config.pending_upgrade_authority = Key::zero();
    protocol_config.upgrade_handoff_started_at = 0;
    protocol_config.upgrade_handoff_eta = 0;
    protocol_config.timelock_delay_secs = 0;
    protocol_config.pending_protocol_fee_bps = setup.protocol_fee_bps;
    protocol_config.pending_max_tickets_per_wallet = setup.max_tickets_per_wallet;
    protocol_config.config_change_eta = 0;
    protocol_config.multisig_enabled = false;
    protocol_config.multisig_threshold = 0;
    protocol_config.multisig_signer_1 = Key::zero();
    protocol_config.multisig_signer_2 = Key::zero();
    protocol_config.multisig_signer_3 = Key::zero();
    protocol_config.emergency_admin = setup.admin;
    protocol_config.emergency_action_nonce = 0;
    protocol_config.treasury_vault = setup.treasury_vault;
    protocol_config.fee_vault = setup.fee_vault;
    protocol_config.protocol_fee_bps = setup.protocol_fee_bps;
    protocol_config.loyalty_multiplier_bps = DEFAULT_LOYALTY_MULTIPLIER_BPS;
    protocol_config.max_tickets_per_wallet = setup.max_tickets_per_wallet;
    protocol_config.is_paused = false;
    protocol_config.created_at = now;
    protocol_config.updated_at = now;
    Ok(())
}

/// The admin sets the protocol fee and the per-wallet cap at once.
///
/// Refused for the first reason of `protocol_settings_error`, the
/// configuration unchanged.
pub fn set_protocol_config(
    protocol_config: &mut ProtocolConfig,
    protocol_fee_bps: u16,
    max_tickets_per_wallet: u16,
    now: i64,
) -> (r: Result<(), TicketingError>)
    ensures
        ({
            let err = protocol_settings_error(protocol_fee_bps, max_tickets_per_wallet);
            &&& err is Some ==> r == Err::<(), TicketingError>(err.unwrap()) && *final(protocol_config) == *old(protocol_config)
            &&& err is None ==> r is Ok && *final(protocol_config) == (ProtocolConfig {
                protocol_fee_bps,
                max_tickets_per_wallet,
                updated_at: now,
                ..*old(protocol_config)
            })
        }),
{
    validate_protocol_settings(protocol_fee_bps, max_tickets_per_wallet)?;
    protocol_config.protocol_fee_bps = protocol_fee_bps;
    protocol_config.max_tickets_per_wallet = max_tickets_per_wallet;
    protocol_config.updated_at = now;
    Ok(())
}

/// The admin hands the admin and upgrade authorities to new keys. Refused
/// with `InvalidAuthority`, the configuration unchanged, if either is the
/// zero address. Returns the previous admin.
pub fn set_protocol_authorities(
    protocol_config: &mut ProtocolConfig,
    new_admin: &Key,
    new_upgrade_authority: &Key,
    now: i64,
) -> (r: Result<Key, TicketingError>)
    ensures
        new_admin@ == zero_key() || new_upgrade_authority@ == zero_key() ==> r == Err::<
            Key,
            TicketingError,
        >(TicketingError::InvalidAuthority) && *final(protocol_config) == *old(protocol_config),
        !(new_admin@ == zero_key() || new_upgrade_authority@ == zero_key()) ==> r == Ok::<
            Key,
            TicketingError,
        >(old(protocol_config).admin) && *final(protocol_config) == (ProtocolConfig {
            admin: *new_admin,
            upgrade_authority: *new_upgrade_authority,
            updated_at: now,
            ..*old(protocol_config)
        }),
{
    if new_admin.is_zero() || new_upgrade_authority.is_zero() {
        return Err(TicketingError::InvalidAuthority);
    }
    let old_admin = protocol_config.admin;
    protocol_config.admin = *new_admin;
    protocol_config.upgrade_authority = *new_upgrade_authority;
    protocol_config.updated_at = now;
    Ok(old_admin)
}

/// The admin registers the protocol's treasury and fee vaults.
pub fn register_protocol_vaults(
    protocol_config: &mut ProtocolConfig,
    treasury_vault: &Key,
    fee_vault: &Key,
    now: i64,
)
    ensures
        *final(protocol_config) == (ProtocolConfig {
            treasury_vault: *treasury_vault,
            fee_vault: *fee_vault,
            updated_at: now,
            ..*old(protocol_config)
        }),
{
    protocol_config.treasury_vault = *treasury_vault;
    protocol_config.fee_vault = *fee_vault;
    protocol_config.updated_at = now;
}

/// The admin pauses or resumes the whole protocol.
pub fn pause_protocol(protocol_config: &mut ProtocolConfig, is_paused: bool, now: i64)
    ensures
        *final(protocol_config) == (ProtocolConfig {
            is_paused,
            updated_at: now,
            ..*old(protocol_config)
        }),
{
    protocol_config.is_paused = is_paused;
    protocol_config.updated_at = now;
}

} // verus!
