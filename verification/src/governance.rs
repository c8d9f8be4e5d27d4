//! Privileged protocol actions: multisig sign-off, timelocked configuration
//! changes, upgrade authority handoff and emergency admin rotation.

use vstd::prelude::*;

use crate::error::TicketingError;
use crate::key::{zero_key, Key};
use crate::protocol::{protocol_settings_error, validate_protocol_settings};
use crate::state::ProtocolConfig;

verus! {

/// An extra account passed along with an instruction, and whether it signed.
#[derive(Clone, Copy, Debug)]
pub struct RemainingAccount {
    pub key: Key,
    pub is_signer: bool,
}

/// Whether a key signed among the extra accounts.
pub open spec fn signed_among(accounts: Seq<RemainingAccount>, k: Key) -> bool {
    exists|i: int| 0 <= i < accounts.len() && #[trigger] accounts[i].is_signer && accounts[i].key@
        == k@
}

/// Whether a key signed among the extra accounts.
pub fn has_signed(accounts: &Vec<RemainingAccount>, k: &Key) -> (r: bool)
    ensures
        r == signed_among(accounts@, *k),
{
    let mut i: usize = 0;
    while i < accounts.len()
        invariant
            0 <= i <= accounts@.len(),
            forall|j: int|
                0 <= j < i ==> !(#[trigger] accounts@[j].is_signer && accounts@[j].key@ == k@),
        decreases accounts@.len() - i,
    {
        if accounts[i].is_signer && accounts[i].key.same(k) {
            return true;
        }
        i = i + 1;
    }
    false
}

/// One for a configured (non-zero) key, else zero.
pub open spec fn configured(k: Key) -> int {
    if k@ != zero_key() {
        1
    } else {
        0
    }
}

/// How many of three multisig keys are configured.
pub open spec fn configured_count(s1: Key, s2: Key, s3: Key) -> int {
    configured(s1) + configured(s2) + configured(s3)
}

/// One for a configured multisig key that approves (it is the admin, or it
/// signed among the extra accounts), else zero.
pub open spec fn approval(s: Key, admin: Key, accounts: Seq<RemainingAccount>) -> int {
    if s@ != zero_key() && (s@ == admin@ || signed_among(accounts, s)) {
        1
    } else {
        0
    }
}

/// How many of the configured multisig keys approve.
pub open spec fn approval_count(
    cfg: ProtocolConfig,
    admin: Key,
    accounts: Seq<RemainingAccount>,
) -> int {
    approval(cfg.multisig_signer_1, admin, accounts) + approval(
        cfg.multisig_signer_2,
        admin,
        accounts,
    ) + approval(cfg.multisig_signer_3, admin, accounts)
}

/// The first reason a privileged action's sign-off falls short, if any: the
/// signer is not the admin; or, with multisig on, the threshold is outside
/// one to three or above the configured keys, or fewer configured keys
/// approve than the threshold.
pub open spec fn signoff_error(
    cfg: ProtocolConfig,
    admin: Key,
    accounts: Seq<RemainingAccount>,
) -> Option<TicketingError> {
    if cfg.admin@ != admin@ {
        Some(TicketingError::Unauthorized)
    } else if !cfg.multisig_enabled {
        None
    } else if !(cfg.multisig_threshold > 0 && cfg.multisig_threshold <= 3) {
        Some(TicketingError::InvalidMultisigConfig)
    } else if configured_count(cfg.multisig_signer_1, cfg.multisig_signer_2, cfg.multisig_signer_3)
        < cfg.multisig_threshold {
        Some(TicketingError::InvalidMultisigConfig)
    } else if approval_count(cfg, admin, accounts) < cfg.multisig_threshold {
        Some(TicketingError::MultisigSignoffMissing)
    } else {
        None
    }
}

/// Counts a configured key.
fn count_configured(k: &Key) -> (n: u8)
    ensures
        n == configured(*k),
{
    if k.is_zero() {
        0
    } else {
        1
    }
}

/// Counts an approving key.
fn count_approval(s: &Key, admin: &Key, accounts: &Vec<RemainingAccount>) -> (n: u8)
    ensures
        n == approval(*s, *admin, accounts@),
{
    if s.is_zero() {
        0
    } else if s.same(admin) {
        1
    } else if has_signed(accounts, s) {
        1
    } else {
        0
    }
}

/// Checks that the admin signs a privileged action, together with enough
/// multisig keys when multisig is on.
pub fn enforce_privileged_signoff(
    protocol_config: &ProtocolConfig,
    admin: &Key,
    accounts: &Vec<RemainingAccount>,
) -> (r: Result<(), TicketingError>)
    ensures
        match signoff_error(*protocol_config, *admin, accounts@) {
            Some(e) => r == Err::<(), TicketingError>(e),
            None => r is Ok,
        },
{
    if !protocol_config.admin.same(admin) {
        return Err(TicketingError::Unauthorized);
    }
    if !protocol_config.multisig_enabled {
        return Ok(());
    }
    let threshold = protocol_config.multisig_threshold;
    if !(threshold > 0 && threshold <= 3) {
        return Err(TicketingError::InvalidMultisigConfig);
    }
    let configured_keys = count_configured(&protocol_config.multisig_signer_1) + count_configured(
        &protocol_config.multisig_signer_2,
    ) + count_configured(&protocol_config.multisig_signer_3);
    if configured_keys < threshold {
        return Err(TicketingError::InvalidMultisigConfig);
    }
    let approved = count_approval(&protocol_config.multisig_signer_1, admin, accounts)
        + count_approval(&protocol_config.multisig_signer_2, admin, accounts) + count_approval(
        &protocol_config.multisig_signer_3,
        admin,
        accounts,
    );
    if approved < threshold {
        return Err(TicketingError::MultisigSignoffMissing);
    }
    Ok(())
}

/// New multisig settings.
#[derive(Clone, Copy, Debug)]
pub struct MultisigSettings {
    pub enabled: bool,
    pub threshold: u8,
    pub signer_1: Key,
    pub signer_2: Key,
    pub signer_3: Key,
}

/// The first reason new multisig settings are refused, if any: after the
/// sign-off, an enabled multisig needs a threshold of one to three, met by
/// the keys configured.
pub open spec fn set_multisig_config_error(
    cfg: ProtocolConfig,
    admin: Key,
    accounts: Seq<RemainingAccount>,
    settings: MultisigSettings,
) -> Option<TicketingError> {
    if signoff_error(cfg, admin, accounts) is Some {
        signoff_error(cfg, admin, accounts)
    } else if settings.enabled && !(settings.threshold > 0 && settings.threshold <= 3) {
        Some(TicketingError::InvalidMultisigConfig)
    } else if settings.enabled && configured_count(
        settings.signer_1,
        settings.signer_2,
        settings.signer_3,
    ) < settings.threshold {
        Some(TicketingError::InvalidMultisigConfig)
    } else {
        None
    }
}

/// The admin (with the current sign-off) turns multisig on or off and sets
/// its keys; the threshold is kept only while multisig is on.
///
/// Refused for the first reason of `set_multisig_config_error`, the
/// configuration unchanged.
pub fn set_multisig_config(
    protocol_config: &mut ProtocolConfig,
    admin: &Key,
    accounts: &Vec<RemainingAccount>,
    settings: MultisigSettings,
    now: i64,
) -> (r: Result<(), TicketingError>)
    ensures
        ({
            let err = set_multisig_config_error(*old(protocol_config), *admin, accounts@, settings);
            &&& err is Some ==> r == Err::<(), TicketingError>(err.unwrap()) && *final(protocol_config) == *old(protocol_config)
            &&& err is None ==> r is Ok && *final(protocol_config) == (ProtocolConfig {
                multisig_enabled: settings.enabled,
                multisig_threshold: if settings.enabled {
                    settings.threshold
                } else {
                    0
                },
                multisig_signer_1: settings.signer_1,
                multisig_signer_2: settings.signer_2,
                multisig_signer_3: settings.signer_3,
                updated_at: now,
                ..*old(protocol_config)
            })
        }),
{
    enforce_privileged_signoff(protocol_config, admin, accounts)?;
    if settings.enabled {
        if !(settings.threshold > 0 && settings.threshold <= 3) {
            return Err(TicketingError::InvalidMultisigConfig);
        }
        let configured_keys = count_configured(&settings.signer_1) + count_configured(
            &settings.signer_2,
        ) + count_configured(&settings.signer_3);
        if configured_keys < settings.threshold {
            return Err(TicketingError::InvalidMultisigConfig);
        }
    }
    protocol_config.multisig_enabled = settings.enabled;
    protocol_config.multisig_threshold = if settings.enabled {
        settings.threshold
    } else {
        0
    };
    protocol_config.multisig_signer_1 = settings.signer_1;
    protocol_config.multisig_signer_2 = settings.signer_2;
    protocol_config.multisig_signer_3 = settings.signer_3;
    protocol_config.updated_at = now;
    Ok(())
}

/// The first reason a timelock change is refused, if any.
pub open spec fn set_timelock_delay_error(
    cfg: ProtocolConfig,
    admin: Key,
    accounts: Seq<RemainingAccount>,
    timelock_delay_secs: i64,
) -> Option<TicketingError> {
    if timelock_delay_secs < 0 {
        Some(TicketingError::InvalidAuthority)
    } else {
        signoff_error(cfg, admin, accounts)
    }
}

/// The admin (with the sign-off) sets the delay that queued changes and
/// authority handoffs must wait.
///
/// Refused for the first reason of `set_timelock_delay_error`, the
/// configuration unchanged.
pub fn set_timelock_delay(
    protocol_config: &mut ProtocolConfig,
    admin: &Key,
    accounts: &Vec<RemainingAccount>,
    timelock_delay_secs: i64,
    now: i64,
) -> (r: Result<(), TicketingError>)
    ensures
        ({
            let err = set_timelock_delay_error(
                *old(protocol_config),
                *admin,
                accounts@,
                timelock_delay_secs,
            );
            &&& err is Some ==> r == Err::<(), TicketingError>(err.unwrap()) && *final(protocol_config) == *old(protocol_config)
            &&& err is None ==> r is Ok && *final(protocol_config) == (ProtocolConfig {
                timelock_delay_secs,
                updated_at: now,
                ..*old(protocol_config)
            })
        }),
{
    if timelock_delay_secs < 0 {
        return Err(TicketingError::InvalidAuthority);
    }
    enforce_privileged_signoff(protocol_config, admin, accounts)?;
    protocol_config.timelock_delay_secs = timelock_delay_secs;
    protocol_config.updated_at = now;
    Ok(())
}

/// Whether `now` plus the timelock delay fits in an `i64`.
pub open spec fn eta_fits(cfg: ProtocolConfig, now: i64) -> bool {
    i64::MIN <= now + cfg.timelock_delay_secs <= i64::MAX
}

/// The first reason queueing a configuration change is refused, if any.
pub open spec fn queue_config_change_error(
    cfg: ProtocolConfig,
    admin: Key,
    accounts: Seq<RemainingAccount>,
    pending_protocol_fee_bps: u16,
    pending_max_tickets_per_wallet: u16,
    now: i64,
) -> Option<TicketingError> {
    if protocol_settings_error(pending_protocol_fee_bps, pending_max_tickets_per_wallet) is Some {
        protocol_settings_error(pending_protocol_fee_bps, pending_max_tickets_per_wallet)
    } else if signoff_error(cfg, admin, accounts) is Some {
        signoff_error(cfg, admin, accounts)
    } else if !eta_fits(cfg, now) {
        Some(TicketingError::MathOverflow)
    } else {
        None
    }
}

/// The configuration with a change queued at `now`: the pending values
/// are replaced, executable once the timelock delay has passed.
pub open spec fn queued_config(
    cfg: ProtocolConfig,
    pending_protocol_fee_bps: u16,
    pending_max_tickets_per_wallet: u16,
    now: i64,
) -> ProtocolConfig {
    ProtocolConfig {
        pending_protocol_fee_bps,
        pending_max_tickets_per_wallet,
        config_change_eta: (now + cfg.timelock_delay_secs) as i64,
        updated_at: now,
        ..cfg
    }
}

/// The admin (with the sign-off) queues a new fee and per-wallet cap, to
/// take effect once the timelock delay has passed. A change queued earlier
/// is replaced.
///
/// Refused for the first reason of `queue_config_change_error`, the
/// configuration unchanged.
pub fn queue_protocol_config_change(
    protocol_config: &mut ProtocolConfig,
    admin: &Key,
    accounts: &Vec<RemainingAccount>,
    pending_protocol_fee_bps: u16,
    pending_max_tickets_per_wallet: u16,
    now: i64,
) -> (r: Result<(), TicketingError>)
    ensures
        ({
            let err = queue_config_change_error(
                *old(protocol_config),
                *admin,
                accounts@,
                pending_protocol_fee_bps,
                pending_max_tickets_per_wallet,
                now,
            );
            &&& err is Some ==> r == Err::<(), TicketingError>(err.unwrap()) && *final(protocol_config) == *old(protocol_config)
            &&& err is None ==> r is Ok && *final(protocol_config) == queued_config(
                *old(protocol_config),
                pending_protocol_fee_bps,
                pending_max_tickets_per_wallet,
                now,
            )
        }),
{
    validate_protocol_settings(pending_protocol_fee_bps, pending_max_tickets_per_wallet)?;
    enforce_privileged_signoff(protocol_config, admin, accounts)?;
    let eta = match now.checked_add(protocol_config.timelock_delay_secs) {
        Some(v) => v,
        None => return Err(TicketingError::MathOverflow),
    };
    protocol_config.pending_protocol_fee_bps = pending_protocol_fee_bps;
    protocol_config.pending_max_tickets_per_wallet = pending_max_tickets_per_wallet;
    protocol_config.config_change_eta = eta;
    protocol_config.updated_at = now;
    Ok(())
}

/// The first reason executing the queued change is refused, if any.
pub open spec fn execute_config_change_error(
    cfg: ProtocolConfig,
    admin: Key,
    accounts: Seq<RemainingAccount>,
    now: i64,
) -> Option<TicketingError> {
    if signoff_error(cfg, admin, accounts) is Some {
        signoff_error(cfg, admin, accounts)
    } else if cfg.config_change_eta <= 0 {
        Some(TicketingError::NoPendingConfigChange)
    } else if now < cfg.config_change_eta {
        Some(TicketingError::TimelockNotReady)
    } else {
        None
    }
}

/// The configuration after the queued change takes effect.
pub open spec fn executed_config(cfg: ProtocolConfig, now: i64) -> ProtocolConfig {
    ProtocolConfig {
        protocol_fee_bps: cfg.pending_protocol_fee_bps,
        max_tickets_per_wallet: cfg.pending_max_tickets_per_wallet,
        config_change_eta: 0,
        updated_at: now,
        ..cfg
    }
}

/// The admin (with the sign-off) applies the queued fee and cap once their
/// time has come.
///
/// Refused for the first reason of `execute_config_change_error`, the
/// configuration unchanged.
pub fn execute_protocol_config_change(
    protocol_config: &mut ProtocolConfig,
    admin: &Key,
    accounts: &Vec<RemainingAccount>,
    now: i64,
) -> (r: Result<(), TicketingError>)
    ensures
        ({
            let err = execute_config_change_error(*old(protocol_config), *admin, accounts@, now);
            &&& err is Some ==> r == Err::<(), TicketingError>(err.unwrap()) && *final(protocol_config) == *old(protocol_config)
            &&& err is None ==> r is Ok && *final(protocol_config) == executed_config(
                *old(protocol_config),
                now,
            )
        }),
{
    enforce_privileged_signoff(protocol_config, admin, accounts)?;
    if protocol_config.config_change_eta <= 0 {
        return Err(TicketingError::NoPendingConfigChange);
    }
    if now < protocol_config.config_change_eta {
        return Err(TicketingError::TimelockNotReady);
    }
    protocol_config.protocol_fee_bps = protocol_config.pending_protocol_fee_bps;
    protocol_config.max_tickets_per_wallet = protocol_config.pending_max_tickets_per_wallet;
    protocol_config.config_change_eta = 0;
    protocol_config.updated_at = now;
    Ok(())
}

/// Law: a queued configuration change takes effect only after the timelock
/// delay, with exactly the values queued, and only once: executing it at a
/// time before the queue time plus the delay is refused, and once it has
/// run nothing is pending.
pub proof fn law_config_change_respects_timelock(
    cfg: ProtocolConfig,
    admin: Key,
    accounts: Seq<RemainingAccount>,
    pending_protocol_fee_bps: u16,
    pending_max_tickets_per_wallet: u16,
    queued_at: i64,
    executed_at: i64,
    later: i64,
)
    requires
        queue_config_change_error(
            cfg,
            admin,
            accounts,
            pending_protocol_fee_bps,
            pending_max_tickets_per_wallet,
            queued_at,
        ) is None,
    ensures
        ({
            let queued = queued_config(
                cfg,
                pending_protocol_fee_bps,
                pending_max_tickets_per_wallet,
                queued_at,
            );
            &&& executed_at < queued_at + cfg.timelock_delay_secs ==> execute_config_change_error(
                queued,
                admin,
                accounts,
                executed_at,
            ) is Some
            &&& execute_config_change_error(queued, admin, accounts, executed_at) is None ==> {
                let done = executed_config(queued, executed_at);
                &&& done.protocol_fee_bps == pending_protocol_fee_bps
                &&& done.max_tickets_per_wallet == pending_max_tickets_per_wallet
                &&& signoff_error(done, admin, accounts) is None ==> execute_config_change_error(
                    done,
                    admin,
                    accounts,
                    later,
                ) == Some(TicketingError::NoPendingConfigChange)
            }
        }),
{
}

/// The first reason starting an upgrade-authority handoff is refused, if
/// any.
pub open spec fn begin_handoff_error(
    cfg: ProtocolConfig,
    admin: Key,
    accounts: Seq<RemainingAccount>,
    pending_upgrade_authority: Key,
    now: i64,
) -> Option<TicketingError> {
    if pending_upgrade_authority@ == zero_key() {
        Some(TicketingError::InvalidAuthority)
    } else if signoff_error(cfg, admin, accounts) is Some {
        signoff_error(cfg, admin, accounts)
    } else if !eta_fits(cfg, now) {
        Some(TicketingError::MathOverflow)
    } else {
        None
    }
}

/// The configuration with a handoff to `pending` started at `now`.
pub open spec fn handoff_started_config(cfg: ProtocolConfig, pending: Key, now: i64) -> ProtocolConfig {
    ProtocolConfig {
        pending_upgrade_authority: pending,
        upgrade_handoff_started_at: now,
        upgrade_handoff_eta: (now + cfg.timelock_delay_secs) as i64,
        updated_at: now,
        ..cfg
    }
}

/// The admin (with the sign-off) starts handing the upgrade authority to a
/// new key, which may accept once the timelock delay has passed. A handoff
/// started earlier is replaced.
///
/// Refused for the first reason of `begin_handoff_error`, the configuration
/// unchanged.
pub fn begin_upgrade_authority_handoff(
    protocol_config: &mut ProtocolConfig,
    admin: &Key,
    accounts: &Vec<RemainingAccount>,
    pending_upgrade_authority: &Key,
    now: i64,
) -> (r: Result<(), TicketingError>)
    ensures
        ({
            let err = begin_handoff_error(
                *old(protocol_config),
                *admin,
                accounts@,
                *pending_upgrade_authority,
                now,
            );
            &&& err is Some ==> r == Err::<(), TicketingError>(err.unwrap()) && *final(protocol_config) == *old(protocol_config)
            &&& err is None ==> r is Ok && *final(protocol_config) == handoff_started_config(
                *old(protocol_config),
                *pending_upgrade_authority,
                now,
            )
        }),
{
    if pending_upgrade_authority.is_zero() {
        return Err(TicketingError::InvalidAuthority);
    }
    enforce_privileged_signoff(protocol_config, admin, accounts)?;
    let eta = match now.checked_add(protocol_config.timelock_delay_secs) {
        Some(v) => v,
        None => return Err(TicketingError::MathOverflow),
    };
    protocol_config.pending_upgrade_authority = *pending_upgrade_authority;
    protocol_config.upgrade_handoff_started_at = now;
    protocol_config.upgrade_handoff_eta = eta;
    protocol_config.updated_at = now;
    Ok(())
}

/// The first reason accepting a handoff is refused, if any.
pub open spec fn accept_handoff_error(cfg: ProtocolConfig, accepter: Key, now: i64) -> Option<
    TicketingError,
> {
    if cfg.pending_upgrade_authority@ == zero_key() {
        Some(TicketingError::NoUpgradeHandoffInProgress)
    } else if accepter@ != cfg.pending_upgrade_authority@ {
        Some(TicketingError::InvalidPendingUpgradeAuthority)
    } else if now < cfg.upgrade_handoff_eta {
        Some(TicketingError::UpgradeHandoffNotReady)
    } else {
        None
    }
}

/// The pending upgrade authority accepts the handoff once its time has
/// come; no handoff is then pending.
///
/// Refused for the first reason of `accept_handoff_error`, the
/// configuration unchanged. Otherwise returns the previous upgrade
/// authority.
pub fn accept_upgrade_authority_handoff(
    protocol_config: &mut ProtocolConfig,
    accepter: &Key,
    now: i64,
) -> (r: Result<Key, TicketingError>)
    ensures
        ({
            let err = accept_handoff_error(*old(protocol_config), *accepter, now);
            &&& err is Some ==> r == Err::<Key, TicketingError>(err.unwrap()) && *final(protocol_config) == *old(protocol_config)
            &&& err is None ==> r == Ok::<Key, TicketingError>(old(protocol_config).upgrade_authority)
                && final(protocol_config).pending_upgrade_authority@ == zero_key() && *final(protocol_config) == (ProtocolConfig {
                upgrade_authority: old(protocol_config).pending_upgrade_authority,
                pending_upgrade_authority: final(protocol_config).pending_upgrade_authority,
                upgrade_handoff_started_at: 0,
                upgrade_handoff_eta: 0,
                updated_at: now,
                ..*old(protocol_config)
            })
        }),
{
    if protocol_config.pending_upgrade_authority.is_zero() {
        return Err(TicketingError::NoUpgradeHandoffInProgress);
    }
    if !accepter.same(&protocol_config.pending_upgrade_authority) {
        return Err(TicketingError::InvalidPendingUpgradeAuthority);
    }
    if now < protocol_config.upgrade_handoff_eta {
        return Err(TicketingError::UpgradeHandoffNotReady);
    }
    let previous = protocol_config.upgrade_authority;
    protocol_config.upgrade_authority = protocol_config.pending_upgrade_authority;
    protocol_config.pending_upgrade_authority = Key::zero();
    protocol_config.upgrade_handoff_started_at = 0;
    protocol_config.upgrade_handoff_eta = 0;
    protocol_config.updated_at = now;
    Ok(previous)
}

/// Law: the upgrade authority passes only to the key the admin named, and
/// not before the timelock delay has passed since the handoff began.
pub proof fn law_upgrade_handoff_respects_timelock(
    cfg: ProtocolConfig,
    admin: Key,
    accounts: Seq<RemainingAccount>,
    pending: Key,
    started_at: i64,
    accepter: Key,
    accepted_at: i64,
)
    requires
        begin_handoff_error(cfg, admin, accounts, pending, started_at) is None,
        accept_handoff_error(
            handoff_started_config(cfg, pending, started_at),
            accepter,
            accepted_at,
        ) is None,
    ensures
        accepter@ == pending@,
        accepted_at >= started_at + cfg.timelock_delay_secs,
{
}

/// The first reason an emergency admin rotation is refused, if any.
pub open spec fn emergency_rotate_error(
    cfg: ProtocolConfig,
    new_admin: Key,
    new_emergency_admin: Key,
) -> Option<TicketingError> {
    if new_admin@ == zero_key() || new_emergency_admin@ == zero_key() {
        Some(TicketingError::InvalidAuthority)
    } else if !cfg.is_paused {
        Some(TicketingError::EmergencyRequiresPausedProtocol)
    } else if cfg.emergency_action_nonce == u64::MAX {
        Some(TicketingError::MathOverflow)
    } else {
        None
    }
}

/// The emergency admin replaces the admin and itself while the protocol is
/// paused; each such action advances the emergency nonce.
///
/// Refused for the first reason of `emergency_rotate_error`, the
/// configuration unchanged. Otherwise returns the previous admin.
pub fn emergency_rotate_admin(
    protocol_config: &mut ProtocolConfig,
    new_admin: &Key,
    new_emergency_admin: &Key,
    now: i64,
) -> (r: Result<Key, TicketingError>)
    ensures
        ({
            let err = emergency_rotate_error(*old(protocol_config), *new_admin, *new_emergency_admin);
            &&& err is Some ==> r == Err::<Key, TicketingError>(err.unwrap()) && *final(protocol_config) == *old(protocol_config)
            &&& err is None ==> r == Ok::<Key, TicketingError>(old(protocol_config).admin) && *final(protocol_config) == (ProtocolConfig {
                admin: *new_admin,
                emergency_admin: *new_emergency_admin,
                emergency_action_nonce: (old(protocol_config).emergency_action_nonce + 1) as u64,
                updated_at: now,
                ..*old(protocol_config)
            })
        }),
{
    if new_admin.is_zero() || new_emergency_admin.is_zero() {
        return Err(TicketingError::InvalidAuthority);
    }
    if !protocol_config.is_paused {
        return Err(TicketingError::EmergencyRequiresPausedProtocol);
    }
    if protocol_config.emergency_action_nonce == u64::MAX {
        return Err(TicketingError::MathOverflow);
    }
    let old_admin = protocol_config.admin;
    protocol_config.admin = *new_admin;
    protocol_config.emergency_admin = *new_emergency_admin;
    protocol_config.emergency_action_nonce = protocol_config.emergency_action_nonce + 1;
    protocol_config.updated_at = now;
    Ok(old_admin)
}

/// Law: with multisig on, a privileged action goes through only with at
/// least the threshold of configured keys approving it.
pub proof fn law_privileged_actions_need_quorum(
    cfg: ProtocolConfig,
    admin: Key,
    accounts: Seq<RemainingAccount>,
)
    requires
        signoff_error(cfg, admin, accounts) is None,
        cfg.multisig_enabled,
    ensures
        cfg.admin@ == admin@,
        1 <= cfg.multisig_threshold <= 3,
        approval_count(cfg, admin, accounts) >= cfg.multisig_threshold,
        configured_count(cfg.multisig_signer_1, cfg.multisig_signer_2, cfg.multisig_signer_3)
            >= cfg.multisig_threshold,
{
}

} // verus!
