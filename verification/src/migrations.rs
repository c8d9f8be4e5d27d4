//! Accounts in the layout used before accounts carried a schema version, and
//! how they are read.

use vstd::prelude::*;

use crate::constants::SCHEMA_VERSION_V0;
use crate::error::TicketingError;
use crate::key::{zero_key, Key};
use crate::state::{
    EventAccount, EventStatus, FinancingLifecycleStatus, FinancingOffer, LoyaltyLedger,
    ResalePolicy, Ticket, TicketStatus,
};

verus! {

/// The bytes after an account's eight-byte type tag, when the data starts
/// with `discriminator`; otherwise all of the data.
pub open spec fn spec_payload(raw_data: Seq<u8>, discriminator: Seq<u8>) -> Seq<u8> {
    if raw_data.len() >= discriminator.len() && raw_data.take(discriminator.len() as int)
        == discriminator {
        raw_data.skip(discriminator.len() as int)
    } else {
        raw_data
    }
}

/// Strips an account's type tag from its data, when the data carries it.
pub fn payload_without_discriminator(raw_data: &[u8], discriminator: &[u8]) -> (r: Vec<u8>)
    ensures
        r@ == spec_payload(raw_data@, discriminator@),
{
    let n = discriminator.len();
    let mut tagged = raw_data.len() >= n;
    let mut i: usize = 0;
    while tagged && i < n
        invariant
            0 <= i <= n,
            n == discriminator@.len(),
            tagged ==> raw_data@.len() >= n,
            tagged ==> forall|j: int| 0 <= j < i ==> raw_data@[j] == discriminator@[j],
            !tagged ==> !(raw_data@.len() >= n && raw_data@.take(n as int) == discriminator@),
        decreases n - i,
    {
        if raw_data[i] != discriminator[i] {
            proof {
                if raw_data@.len() >= n && raw_data@.take(n as int) == discriminator@ {
                    assert(raw_data@.take(n as int)[i as int] == raw_data@[i as int]);
                }
            }
            tagged = false;
        }
        i = i + 1;
    }
    if tagged {
        assert(raw_data@.take(n as int) =~= discriminator@);
    }
    let start: usize = if tagged {
        n
    } else {
        0
    };
    let mut payload: Vec<u8> = Vec::new();
    let mut k: usize = start;
    while k < raw_data.len()
        invariant
            start <= k <= raw_data@.len(),
            payload@ == raw_data@.subrange(start as int, k as int),
        decreases raw_data@.len() - k,
    {
        payload.push(raw_data[k]);
        proof {
            assert(raw_data@.subrange(start as int, k + 1) =~= raw_data@.subrange(
                start as int,
                k as int,
            ).push(raw_data@[k as int]));
        }
        k = k + 1;
    }
    assert(payload@ =~= spec_payload(raw_data@, discriminator@));
    payload
}

/// The layout of an event written before accounts carried a schema version.
#[derive(Clone, Debug)]
pub struct EventAccountV0 {
    pub bump: u8,
    pub organizer: Key,
    pub event_id: u64,
    pub title: String,
    pub venue: String,
    pub start_ts: i64,
    pub end_ts: i64,
    pub sales_start_ts: i64,
    pub lock_ts: i64,
    pub capacity: u32,
    pub loyalty_multiplier_bps: u16,
    pub compliance_restriction_flags: u32,
    pub is_paused: bool,
    pub status: EventStatus,
    pub created_at: i64,
    pub updated_at: i64,
}

/// Whether `a` is the legacy `v0` in the current layout: every field kept,
/// at the legacy schema version, not deprecated and with no replacement.
pub open spec fn is_upgraded_event_account(a: EventAccount, v0: EventAccountV0) -> bool {
    &&& a.schema_version == SCHEMA_VERSION_V0
    &&& a.deprecated_layout_version == 0
    &&& a.replacement_account@ == zero_key()
    &&& a.deprecated_at == 0
    &&& a.bump == v0.bump
    &&& a.organizer == v0.organizer
    &&& a.event_id == v0.event_id
    &&& a.title == v0.title
    &&& a.venue == v0.venue
    &&& a.start_ts == v0.start_ts
    &&& a.end_ts == v0.end_ts
    &&& a.sales_start_ts == v0.sales_start_ts
    &&& a.lock_ts == v0.lock_ts
    &&& a.capacity == v0.capacity
    &&& a.loyalty_multiplier_bps == v0.loyalty_multiplier_bps
    &&& a.compliance_restriction_flags == v0.compliance_restriction_flags
    &&& a.is_paused == v0.is_paused
    &&& a.status == v0.status
    &&& a.created_at == v0.created_at
    &&& a.updated_at == v0.updated_at
}

/// Reads an event in either layout. `current` is the data decoded in the
/// current layout and `legacy` in the legacy one, each when it decodes. The
/// current layout wins; a legacy account is upgraded; data that decodes in
/// neither is refused with `AccountSizeMismatch`.
pub fn deserialize_event_account_compat(current: Option<EventAccount>, legacy: Option<EventAccountV0>) -> (r: Result<
    EventAccount,
    TicketingError,
>)
    ensures
        match current {
            Some(a) => r == Ok::<EventAccount, TicketingError>(a),
            None => match legacy {
                Some(v0) => r is Ok && is_upgraded_event_account(r.unwrap(), v0),
                None => r == Err::<EventAccount, TicketingError>(TicketingError::AccountSizeMismatch),
            },
        },
{
    if let Some(account) = current {
        return Ok(account);
    }
    match legacy {
        Some(v0) => Ok(
            EventAccount {
                schema_version: SCHEMA_VERSION_V0,
                deprecated_layout_version: 0,
                replacement_account: Key::zero(),
                deprecated_at: 0,
                bump: v0.bump,
                organizer: v0.organizer,
                event_id: v0.event_id,
                title: v0.title,
                venue: v0.venue,
                start_ts: v0.start_ts,
                end_ts: v0.end_ts,
                sales_start_ts: v0.sales_start_ts,
                lock_ts: v0.lock_ts,
                capacity: v0.capacity,
                loyalty_multiplier_bps: v0.loyalty_multiplier_bps,
                compliance_restriction_flags: v0.compliance_restriction_flags,
                is_paused: v0.is_paused,
                status: v0.status,
                created_at: v0.created_at,
                updated_at: v0.updated_at,
            },
        ),
        None => Err(TicketingError::AccountSizeMismatch),
    }
}

/// The layout of a ticket written before accounts carried a schema version.
#[derive(Clone, Debug)]
pub struct TicketV0 {
    pub bump: u8,
    pub event: Key,
    pub ticket_class: Key,
    pub owner: Key,
    pub buyer: Key,
    pub ticket_id: u32,
    pub status: TicketStatus,
    pub paid_amount_lamports: u64,
    pub is_comp: bool,
    pub created_at: i64,
    pub status_updated_at: i64,
    pub checked_in_at: i64,
    pub last_check_in_at: i64,
    pub check_in_count: u16,
    pub last_check_in_gate_id: String,
    pub refunded_at: i64,
    pub refund_source: u8,
    pub refund_amount_lamports: u64,
    pub invalidated_at: i64,
    pub is_disputed: bool,
    pub is_chargeback: bool,
    pub disputed_at: i64,
    pub dispute_reason_code: u16,
    pub dispute_updated_at: i64,
    pub metadata_uri: String,
    pub metadata_version: u16,
    pub metadata_updated_at: i64,
    pub transfer_count: u16,
    pub last_transfer_at: i64,
    pub compliance_decision_code: u16,
    pub compliance_checked_at: i64,
    pub purchase_trust_recorded: bool,
    pub attendance_trust_recorded: bool,
}

/// Whether `a` is the legacy `v0` in the current layout: every field kept,
/// at the legacy schema version, not deprecated and with no replacement.
pub open spec fn is_upgraded_ticket(a: Ticket, v0: TicketV0) -> bool {
    &&& a.schema_version == SCHEMA_VERSION_V0
    &&& a.deprecated_layout_version == 0
    &&& a.replacement_account@ == zero_key()
    &&& a.deprecated_at == 0
    &&& a.bump == v0.bump
    &&& a.event == v0.event
    &&& a.ticket_class == v0.ticket_class
    &&& a.owner == v0.owner
    &&& a.buyer == v0.buyer
    &&& a.ticket_id == v0.ticket_id
    &&& a.status == v0.status
    &&& a.paid_amount_lamports == v0.paid_amount_lamports
    &&& a.is_comp == v0.is_comp
    &&& a.created_at == v0.created_at
    &&& a.status_updated_at == v0.status_updated_at
    &&& a.checked_in_at == v0.checked_in_at
    &&& a.last_check_in_at == v0.last_check_in_at
    &&& a.check_in_count == v0.check_in_count
    &&& a.last_check_in_gate_id == v0.last_check_in_gate_id
    &&& a.refunded_at == v0.refunded_at
    &&& a.refund_source == v0.refund_source
    &&& a.refund_amount_lamports == v0.refund_amount_lamports
    &&& a.invalidated_at == v0.invalidated_at
    &&& a.is_disputed == v0.is_disputed
    &&& a.is_chargeback == v0.is_chargeback
    &&& a.disputed_at == v0.disputed_at
    &&& a.dispute_reason_code == v0.dispute_reason_code
    &&& a.dispute_updated_at == v0.dispute_updated_at
    &&& a.metadata_uri == v0.metadata_uri
    &&& a.metadata_version == v0.metadata_version
    &&& a.metadata_updated_at == v0.metadata_updated_at
    &&& a.transfer_count == v0.transfer_count
    &&& a.last_transfer_at == v0.last_transfer_at
    &&& a.compliance_decision_code == v0.compliance_decision_code
    &&& a.compliance_checked_at == v0.compliance_checked_at
    &&& a.purchase_trust_recorded == v0.purchase_trust_recorded
    &&& a.attendance_trust_recorded == v0.attendance_trust_recorded
}

/// Reads a ticket in either layout. `current` is the data decoded in the
/// current layout and `legacy` in the legacy one, each when it decodes. The
/// current layout wins; a legacy account is upgraded; data that decodes in
/// neither is refused with `AccountSizeMismatch`.
pub fn deserialize_ticket_compat(current: Option<Ticket>, legacy: Option<TicketV0>) -> (r: Result<
    Ticket,
    TicketingError,
>)
    ensures
        match current {
            Some(a) => r == Ok::<Ticket, TicketingError>(a),
            None => match legacy {
                Some(v0) => r is Ok && is_upgraded_ticket(r.unwrap(), v0),
                None => r == Err::<Ticket, TicketingError>(TicketingError::AccountSizeMismatch),
            },
        },
{
    if let Some(account) = current {
        return Ok(account);
    }
    match legacy {
        Some(v0) => Ok(
            Ticket {
                schema_version: SCHEMA_VERSION_V0,
                deprecated_layout_version: 0,
                replacement_account: Key::zero(),
                deprecated_at: 0,
                bump: v0.bump,
                event: v0.event,
                ticket_class: v0.ticket_class,
                owner: v0.owner,
                buyer: v0.buyer,
                ticket_id: v0.ticket_id,
                status: v0.status,
                paid_amount_lamports: v0.paid_amount_lamports,
                is_comp: v0.is_comp,
                created_at: v0.created_at,
                status_updated_at: v0.status_updated_at,
                checked_in_at: v0.checked_in_at,
                last_check_in_at: v0.last_check_in_at,
                check_in_count: v0.check_in_count,
                last_check_in_gate_id: v0.last_check_in_gate_id,
                refunded_at: v0.refunded_at,
                refund_source: v0.refund_source,
                refund_amount_lamports: v0.refund_amount_lamports,
                invalidated_at: v0.invalidated_at,
                is_disputed: v0.is_disputed,
                is_chargeback: v0.is_chargeback,
                disputed_at: v0.disputed_at,
                dispute_reason_code: v0.dispute_reason_code,
                dispute_updated_at: v0.dispute_updated_at,
                metadata_uri: v0.metadata_uri,
                metadata_version: v0.metadata_version,
                metadata_updated_at: v0.metadata_updated_at,
                transfer_count: v0.transfer_count,
                last_transfer_at: v0.last_transfer_at,
                compliance_decision_code: v0.compliance_decision_code,
                compliance_checked_at: v0.compliance_checked_at,
                purchase_trust_recorded: v0.purchase_trust_recorded,
                attendance_trust_recorded: v0.attendance_trust_recorded,
            },
        ),
        None => Err(TicketingError::AccountSizeMismatch),
    }
}

/// The layout of a resale policy written before accounts carried a schema version.
#[derive(Clone, Debug)]
pub struct ResalePolicyV0 {
    pub bump: u8,
    pub event: Key,
    pub ticket_class: Key,
    pub class_id: u16,
    pub max_markup_bps: u16,
    pub royalty_bps: u16,
    pub royalty_vault: Key,
    pub transfer_cooldown_secs: i64,
    pub max_transfer_count: u16,
    pub transfer_lock_before_event_secs: i64,
    pub whitelist: Vec<Key>,
    pub blacklist: Vec<Key>,
    pub created_at: i64,
    pub updated_at: i64,
}

/// Whether `a` is the legacy `v0` in the current layout: every field kept,
/// at the legacy schema version, not deprecated and with no replacement.
pub open spec fn is_upgraded_resale_policy(a: ResalePolicy, v0: ResalePolicyV0) -> bool {
    &&& a.schema_version == SCHEMA_VERSION_V0
    &&& a.deprecated_layout_version == 0
    &&& a.replacement_account@ == zero_key()
    &&& a.deprecated_at == 0
    &&& a.bump == v0.bump
    &&& a.event == v0.event
    &&& a.ticket_class == v0.ticket_class
    &&& a.class_id == v0.class_id
    &&& a.max_markup_bps == v0.max_markup_bps
    &&& a.royalty_bps == v0.royalty_bps
    &&& a.royalty_vault == v0.royalty_vault
    &&& a.transfer_cooldown_secs == v0.transfer_cooldown_secs
    &&& a.max_transfer_count == v0.max_transfer_count
    &&& a.transfer_lock_before_event_secs == v0.transfer_lock_before_event_secs
    &&& a.whitelist == v0.whitelist
    &&& a.blacklist == v0.blacklist
    &&& a.created_at == v0.created_at
    &&& a.updated_at == v0.updated_at
}

/// Reads a resale policy in either layout. `current` is the data decoded in the
/// current layout and `legacy` in the legacy one, each when it decodes. The
/// current layout wins; a legacy account is upgraded; data that decodes in
/// neither is refused with `AccountSizeMismatch`.
pub fn deserialize_resale_policy_compat(current: Option<ResalePolicy>, legacy: Option<ResalePolicyV0>) -> (r: Result<
    ResalePolicy,
    TicketingError,
>)
    ensures
        match current {
            Some(a) => r == Ok::<ResalePolicy, TicketingError>(a),
            None => match legacy {
                Some(v0) => r is Ok && is_upgraded_resale_policy(r.unwrap(), v0),
                None => r == Err::<ResalePolicy, TicketingError>(TicketingError::AccountSizeMismatch),
            },
        },
{
    if let Some(account) = current {
        return Ok(account);
    }
    match legacy {
        Some(v0) => Ok(
            ResalePolicy {
                schema_version: SCHEMA_VERSION_V0,
                deprecated_layout_version: 0,
                replacement_account: Key::zero(),
                deprecated_at: 0,
                bump: v0.bump,
                event: v0.event,
                ticket_class: v0.ticket_class,
                class_id: v0.class_id,
                max_markup_bps: v0.max_markup_bps,
                royalty_bps: v0.royalty_bps,
                royalty_vault: v0.royalty_vault,
                transfer_cooldown_secs: v0.transfer_cooldown_secs,
                max_transfer_count: v0.max_transfer_count,
                transfer_lock_before_event_secs: v0.transfer_lock_before_event_secs,
                whitelist: v0.whitelist,
                blacklist: v0.blacklist,
                created_at: v0.created_at,
                updated_at: v0.updated_at,
            },
        ),
        None => Err(TicketingError::AccountSizeMismatch),
    }
}

/// The layout of a financing offer written before accounts carried a schema version.
#[derive(Clone, Debug)]
pub struct FinancingOfferV0 {
    pub bump: u8,
    pub event: Key,
    pub organizer: Key,
    pub offer_authority: Key,
    pub advance_amount_lamports: u64,
    pub fee_bps: u16,
    pub repayment_cap_lamports: u64,
    pub schedule_start_ts: i64,
    pub schedule_interval_secs: i64,
    pub schedule_installments: u16,
    pub max_disbursements: u16,
    pub status: FinancingLifecycleStatus,
    pub terms_locked: bool,
    pub financing_frozen: bool,
    pub clawback_allowed: bool,
    pub freeze_reason_code: u16,
    pub accepted_by: Key,
    pub accepted_at: i64,
    pub rejected_by: Key,
    pub rejected_at: i64,
    pub total_disbursed_lamports: u64,
    pub disbursement_count: u16,
    pub disbursed_at: i64,
    pub compliance_decision_code: u16,
    pub compliance_checked_at: i64,
    pub created_at: i64,
    pub updated_at: i64,
}

/// Whether `a` is the legacy `v0` in the current layout: every field kept,
/// at the legacy schema version, not deprecated and with no replacement.
pub open spec fn is_upgraded_financing_offer(a: FinancingOffer, v0: FinancingOfferV0) -> bool {
    &&& a.schema_version == SCHEMA_VERSION_V0
    &&& a.deprecated_layout_version == 0
    &&& a.replacement_account@ == zero_key()
    &&& a.deprecated_at == 0
    &&& a.bump == v0.bump
    &&& a.event == v0.event
    &&& a.organizer == v0.organizer
    &&& a.offer_authority == v0.offer_authority
    &&& a.advance_amount_lamports == v0.advance_amount_lamports
    &&& a.fee_bps == v0.fee_bps
    &&& a.repayment_cap_lamports == v0.repayment_cap_lamports
    &&& a.schedule_start_ts == v0.schedule_start_ts
    &&& a.schedule_interval_secs == v0.schedule_interval_secs
    &&& a.schedule_installments == v0.schedule_installments
    &&& a.max_disbursements == v0.max_disbursements
    &&& a.status == v0.status
    &&& a.terms_locked == v0.terms_locked
    &&& a.financing_frozen == v0.financing_frozen
    &&& a.clawback_allowed == v0.clawback_allowed
    &&& a.freeze_reason_code == v0.freeze_reason_code
    &&& a.accepted_by == v0.accepted_by
    &&& a.accepted_at == v0.accepted_at
    &&& a.rejected_by == v0.rejected_by
    &&& a.rejected_at == v0.rejected_at
    &&& a.total_disbursed_lamports == v0.total_disbursed_lamports
    &&& a.disbursement_count == v0.disbursement_count
    &&& a.disbursed_at == v0.disbursed_at
    &&& a.compliance_decision_code == v0.compliance_decision_code
    &&& a.compliance_checked_at == v0.compliance_checked_at
    &&& a.created_at == v0.created_at
    &&& a.updated_at == v0.updated_at
}

/// Reads a financing offer in either layout. `current` is the data decoded in the
/// current layout and `legacy` in the legacy one, each when it decodes. The
/// current layout wins; a legacy account is upgraded; data that decodes in
/// neither is refused with `AccountSizeMismatch`.
pub fn deserialize_financing_offer_compat(current: Option<FinancingOffer>, legacy: Option<FinancingOfferV0>) -> (r: Result<
    FinancingOffer,
    TicketingError,
>)
    ensures
        match current {
            Some(a) => r == Ok::<FinancingOffer, TicketingError>(a),
            None => match legacy {
                Some(v0) => r is Ok && is_upgraded_financing_offer(r.unwrap(), v0),
                None => r == Err::<FinancingOffer, TicketingError>(TicketingError::AccountSizeMismatch),
            },
        },
{
    if let Some(account) = current {
        return Ok(account);
    }
    match legacy {
        Some(v0) => Ok(
            FinancingOffer {
                schema_version: SCHEMA_VERSION_V0,
                deprecated_layout_version: 0,
                replacement_account: Key::zero(),
                deprecated_at: 0,
                bump: v0.bump,
                event: v0.event,
                organizer: v0.organizer,
                offer_authority: v0.offer_authority,
                advance_amount_lamports: v0.advance_amount_lamports,
                fee_bps: v0.fee_bps,
                repayment_cap_lamports: v0.repayment_cap_lamports,
                schedule_start_ts: v0.schedule_start_ts,
                schedule_interval_secs: v0.schedule_interval_secs,
                schedule_installments: v0.schedule_installments,
                max_disbursements: v0.max_disbursements,
                status: v0.status,
                terms_locked: v0.terms_locked,
                financing_frozen: v0.financing_frozen,
                clawback_allowed: v0.clawback_allowed,
                freeze_reason_code: v0.freeze_reason_code,
                accepted_by: v0.accepted_by,
                accepted_at: v0.accepted_at,
                rejected_by: v0.rejected_by,
                rejected_at: v0.rejected_at,
                total_disbursed_lamports: v0.total_disbursed_lamports,
                disbursement_count: v0.disbursement_count,
                disbursed_at: v0.disbursed_at,
                compliance_decision_code: v0.compliance_decision_code,
                compliance_checked_at: v0.compliance_checked_at,
                created_at: v0.created_at,
                updated_at: v0.updated_at,
            },
        ),
        None => Err(TicketingError::AccountSizeMismatch),
    }
}

/// The layout of a loyalty ledger written before accounts carried a schema version.
#[derive(Clone, Debug)]
pub struct LoyaltyLedgerV0 {
    pub bump: u8,
    pub wallet: Key,
    pub total_accrued_points: u64,
    pub total_redeemed_points: u64,
    pub available_points: u64,
    pub last_event: Key,
    pub last_reason: u8,
    pub last_accrued_at: i64,
    pub last_redeemed_at: i64,
    pub created_at: i64,
    pub updated_at: i64,
}

/// Whether `a` is the legacy `v0` in the current layout: every field kept,
/// at the legacy schema version, not deprecated and with no replacement.
pub open spec fn is_upgraded_loyalty_ledger(a: LoyaltyLedger, v0: LoyaltyLedgerV0) -> bool {
    &&& a.schema_version == SCHEMA_VERSION_V0
    &&& a.deprecated_layout_version == 0
    &&& a.replacement_account@ == zero_key()
    &&& a.deprecated_at == 0
    &&& a.bump == v0.bump
    &&& a.wallet == v0.wallet
    &&& a.total_accrued_points == v0.total_accrued_points
    &&& a.total_redeemed_points == v0.total_redeemed_points
    &&& a.available_points == v0.available_points
    &&& a.last_event == v0.last_event
    &&& a.last_reason == v0.last_reason
    &&& a.last_accrued_at == v0.last_accrued_at
    &&& a.last_redeemed_at == v0.last_redeemed_at
    &&& a.created_at == v0.created_at
    &&& a.updated_at == v0.updated_at
}

/// Reads a loyalty ledger in either layout. `current` is the data decoded in the
/// current layout and `legacy` in the legacy one, each when it decodes. The
/// current layout wins; a legacy account is upgraded; data that decodes in
/// neither is refused with `AccountSizeMismatch`.
pub fn deserialize_loyalty_ledger_compat(current: Option<LoyaltyLedger>, legacy: Option<LoyaltyLedgerV0>) -> (r: Result<
    LoyaltyLedger,
    TicketingError,
>)
    ensures
        match current {
            Some(a) => r == Ok::<LoyaltyLedger, TicketingError>(a),
            None => match legacy {
                Some(v0) => r is Ok && is_upgraded_loyalty_ledger(r.unwrap(), v0),
                None => r == Err::<LoyaltyLedger, TicketingError>(TicketingError::AccountSizeMismatch),
            },
        },
{
    if let Some(account) = current {
        return Ok(account);
    }
    match legacy {
        Some(v0) => Ok(
            LoyaltyLedger {
                schema_version: SCHEMA_VERSION_V0,
                deprecated_layout_version: 0,
                replacement_account: Key::zero(),
                deprecated_at: 0,
                bump: v0.bump,
                wallet: v0.wallet,
                total_accrued_points: v0.total_accrued_points,
                total_redeemed_points: v0.total_redeemed_points,
                available_points: v0.available_points,
                last_event: v0.last_event,
                last_reason: v0.last_reason,
                last_accrued_at: v0.last_accrued_at,
                last_redeemed_at: v0.last_redeemed_at,
                created_at: v0.created_at,
                updated_at: v0.updated_at,
            },
        ),
        None => Err(TicketingError::AccountSizeMismatch),
    }
}

} // verus!
