//! The accounts of the program and the states they move through.

use vstd::prelude::*;

use crate::error::TicketingError;
use crate::key::Key;

verus! {

/// Whether an organizer may run events.
#[derive(Clone, Copy, Debug, PartialEq, Eq, Structural)]
pub enum OrganizerStatus {
    Active,
    Suspended,
}

/// Life cycle of an event.
#[derive(Clone, Copy, Debug, PartialEq, Eq, Structural)]
pub enum EventStatus {
    Draft,
    Frozen,
    Cancelled,
    Closed,
}

/// Life cycle of a ticket.
#[derive(Clone, Copy, Debug, PartialEq, Eq, Structural)]
pub enum TicketStatus {
    Active,
    CheckedIn,
    Refunded,
    Invalidated,
}

/// Life cycle of a financing offer.
#[derive(Clone, Copy, Debug, PartialEq, Eq, Structural)]
pub enum FinancingLifecycleStatus {
    Draft,
    Accepted,
    Rejected,
    PartiallyDisbursed,
    Disbursed,
    Settled,
}

/// The number an organizer status is stored and reported as.
pub open spec fn organizer_status_code(s: OrganizerStatus) -> u8 {
    match s {
        OrganizerStatus::Active => 1,
        OrganizerStatus::Suspended => 2,
    }
}

/// The number an event status is stored and reported as.
pub open spec fn event_status_code(s: EventStatus) -> u8 {
    match s {
        EventStatus::Draft => 1,
        EventStatus::Frozen => 2,
        EventStatus::Cancelled => 3,
        EventStatus::Closed => 4,
    }
}

/// The number a ticket status is stored and reported as.
pub open spec fn ticket_status_code(s: TicketStatus) -> u8 {
    match s {
        TicketStatus::Active => 1,
        TicketStatus::CheckedIn => 2,
        TicketStatus::Refunded => 3,
        TicketStatus::Invalidated => 4,
    }
}

/// The ticket status a number stands for, if any.
pub open spec fn ticket_status_of_code(v: u8) -> Option<TicketStatus> {
    if v == 1 {
        Some(TicketStatus::Active)
    } else if v == 2 {
        Some(TicketStatus::CheckedIn)
    } else if v == 3 {
        Some(TicketStatus::Refunded)
    } else if v == 4 {
        Some(TicketStatus::Invalidated)
    } else {
        None
    }
}

/// Which ticket status changes are legal: an active ticket may be checked in,
/// refunded or invalidated; a checked-in ticket may only be invalidated;
/// refunded and invalidated tickets are final.
pub open spec fn ticket_transition_allowed(from: TicketStatus, to: TicketStatus) -> bool {
    match from {
        TicketStatus::Active => to == TicketStatus::CheckedIn || to == TicketStatus::Refunded
            || to == TicketStatus::Invalidated,
        TicketStatus::CheckedIn => to == TicketStatus::Invalidated,
        TicketStatus::Refunded => false,
        TicketStatus::Invalidated => false,
    }
}

impl OrganizerStatus {
    pub fn code(&self) -> (r: u8)
        ensures
            r == organizer_status_code(*self),
    {
        match self {
            OrganizerStatus::Active => 1,
            OrganizerStatus::Suspended => 2,
        }
    }
}

impl EventStatus {
    pub fn code(&self) -> (r: u8)
        ensures
            r == event_status_code(*self),
    {
        match self {
            EventStatus::Draft => 1,
            EventStatus::Frozen => 2,
            EventStatus::Cancelled => 3,
            EventStatus::Closed => 4,
        }
    }

    /// Whether the event is still being prepared (draft or frozen), the only
    /// states in which its classes, sales and gates operate.
    pub fn is_open(&self) -> (r: bool)
        ensures
            r == (*self == EventStatus::Draft || *self == EventStatus::Frozen),
    {
        match self {
            EventStatus::Draft => true,
            EventStatus::Frozen => true,
            _ => false,
        }
    }
}

impl TicketStatus {
    pub fn code(&self) -> (r: u8)
        ensures
            r == ticket_status_code(*self),
    {
        match self {
            TicketStatus::Active => 1,
            TicketStatus::CheckedIn => 2,
            TicketStatus::Refunded => 3,
            TicketStatus::Invalidated => 4,
        }
    }

    /// The status a stored number stands for; refused with
    /// `InvalidTicketStatus` for any other number.
    pub fn from_u8(value: u8) -> (r: Result<TicketStatus, TicketingError>)
        ensures
            match ticket_status_of_code(value) {
                Some(s) => r == Ok::<TicketStatus, TicketingError>(s),
                None => r == Err::<TicketStatus, TicketingError>(
                    TicketingError::InvalidTicketStatus,
                ),
            },
    {
        if value == 1 {
            Ok(TicketStatus::Active)
        } else if value == 2 {
            Ok(TicketStatus::CheckedIn)
        } else if value == 3 {
            Ok(TicketStatus::Refunded)
        } else if value == 4 {
            Ok(TicketStatus::Invalidated)
        } else {
            Err(TicketingError::InvalidTicketStatus)
        }
    }

    /// Whether a ticket in this status may move to `next`.
    pub fn can_transition_to(&self, next: TicketStatus) -> (r: bool)
        ensures
            r == ticket_transition_allowed(*self, next),
    {
        match self {
            TicketStatus::Active => match next {
                TicketStatus::Active => false,
                _ => true,
            },
            TicketStatus::CheckedIn => match next {
                TicketStatus::Invalidated => true,
                _ => false,
            },
            _ => false,
        }
    }
}

impl FinancingLifecycleStatus {
    pub fn code(&self) -> (r: u8)
        ensures
            r == financing_status_code(*self),
    {
        match self {
            FinancingLifecycleStatus::Draft => 0,
            FinancingLifecycleStatus::Accepted => 1,
            FinancingLifecycleStatus::Rejected => 2,
            FinancingLifecycleStatus::PartiallyDisbursed => 3,
            FinancingLifecycleStatus::Disbursed => 4,
            FinancingLifecycleStatus::Settled => 5,
        }
    }
}

/// The number a financing status is stored and reported as.
pub open spec fn financing_status_code(s: FinancingLifecycleStatus) -> u8 {
    match s {
        FinancingLifecycleStatus::Draft => 0,
        FinancingLifecycleStatus::Accepted => 1,
        FinancingLifecycleStatus::Rejected => 2,
        FinancingLifecycleStatus::PartiallyDisbursed => 3,
        FinancingLifecycleStatus::Disbursed => 4,
        FinancingLifecycleStatus::Settled => 5,
    }
}

/// Global configuration of the protocol.
#[derive(Clone, Debug)]
pub struct ProtocolConfig {
    pub bump: u8,
    pub admin: Key,
    pub upgrade_authority: Key,
    pub pending_upgrade_authority: Key,
    pub upgrade_handoff_started_at: i64,
    pub upgrade_handoff_eta: i64,
    pub timelock_delay_secs: i64,
    pub pending_protocol_fee_bps: u16,
    pub pending_max_tickets_per_wallet: u16,
    pub config_change_eta: i64,
    pub multisig_enabled: bool,
    pub multisig_threshold: u8,
    pub multisig_signer_1: Key,
    pub multisig_signer_2: Key,
    pub multisig_signer_3: Key,
    pub emergency_admin: Key,
    pub emergency_action_nonce: u64,
    pub treasury_vault: Key,
    pub fee_vault: Key,
    pub protocol_fee_bps: u16,
    pub loyalty_multiplier_bps: u16,
    pub max_tickets_per_wallet: u16,
    pub is_paused: bool,
    pub created_at: i64,
    pub updated_at: i64,
}

/// An organizer of events.
#[derive(Clone, Debug)]
pub struct OrganizerProfile {
    pub bump: u8,
    pub authority: Key,
    pub payout_wallet: Key,
    pub status: OrganizerStatus,
    pub compliance_flags: u32,
    pub metadata_uri: String,
    pub created_at: i64,
    pub updated_at: i64,
}

/// A delegate of an organizer, with a permission word.
#[derive(Clone, Debug)]
pub struct OrganizerOperator {
    pub bump: u8,
    pub organizer: Key,
    pub operator: Key,
    pub permissions: u32,
    pub active: bool,
    pub updated_at: i64,
}

/// An event run by an organizer.
#[derive(Clone, Debug)]
pub struct EventAccount {
    pub bump: u8,
    pub schema_version: u16,
    pub deprecated_layout_version: u16,
    pub replacement_account: Key,
    pub deprecated_at: i64,
    pub organizer: Key,
    pub event_id: u64,
    pub title: String,
    pub venue: String,
    pub start_ts: i64,
    pub end_ts: i64,
    pub sales_start_ts: i64,
    pub lock_ts: i64,
    pub capacity: u32,
    pub loyalty_multiplier_bps: u16,
    pub compliance_restriction_flags: u32,
    pub is_paused: bool,
    pub status: EventStatus,
    pub created_at: i64,
    pub updated_at: i64,
}

/// A class of tickets of an event, with its inventory and sale rules.
#[derive(Clone, Debug)]
pub struct TicketClass {
    pub bump: u8,
    pub event: Key,
    pub class_id: u16,
    pub name: String,
    pub total_supply: u32,
    pub reserved_supply: u32,
    pub sold_supply: u32,
    pub refunded_supply: u32,
    pub remaining_supply: u32,
    pub face_price_lamports: u64,
    pub sale_start_ts: i64,
    pub sale_end_ts: i64,
    pub per_wallet_limit: u16,
    pub is_transferable: bool,
    pub is_resale_enabled: bool,
    pub allow_reentry: bool,
    pub max_reentries: u8,
    pub stakeholder_wallet: Key,
    pub stakeholder_bps: u16,
    pub created_at: i64,
    pub updated_at: i64,
}

impl TicketClass {
    /// The inventory adds up: what is reserved, sold and still on sale is
    /// exactly the total supply.
    pub open spec fn supply_balanced(&self) -> bool {
        self.reserved_supply + self.sold_supply + self.remaining_supply == self.total_supply
    }
}

/// A ticket.
#[derive(Clone, Debug)]
pub struct Ticket {
    pub bump: u8,
    pub schema_version: u16,
    pub deprecated_layout_version: u16,
    pub replacement_account: Key,
    pub deprecated_at: i64,
    pub event: Key,
    pub ticket_class: Key,
    pub owner: Key,
    pub buyer: Key,
    pub ticket_id: u32,
    pub status: TicketStatus,
    pub paid_amount_lamports: u64,
    pub is_comp: bool,
    pub created_at: i64,
    pub status_updated_at: i64,
    pub checked_in_at: i64,
    pub last_check_in_at: i64,
    pub check_in_count: u16,
    pub last_check_in_gate_id: String,
    pub refunded_at: i64,
    pub refund_source: u8,
    pub refund_amount_lamports: u64,
    pub invalidated_at: i64,
    pub is_disputed: bool,
    pub is_chargeback: bool,
    pub disputed_at: i64,
    pub dispute_reason_code: u16,
    pub dispute_updated_at: i64,
    pub metadata_uri: String,
    pub metadata_version: u16,
    pub metadata_updated_at: i64,
    pub transfer_count: u16,
    pub last_transfer_at: i64,
    pub compliance_decision_code: u16,
    pub compliance_checked_at: i64,
    pub purchase_trust_recorded: bool,
    pub attendance_trust_recorded: bool,
}

/// How many tickets of a class one wallet has bought.
#[derive(Clone, Debug)]
pub struct WalletPurchaseCounter {
    pub bump: u8,
    pub event: Key,
    pub ticket_class: Key,
    pub wallet: Key,
    pub purchased_count: u16,
    pub updated_at: i64,
}

/// A resale offer of a ticket.
#[derive(Clone, Debug)]
pub struct Listing {
    pub bump: u8,
    pub event: Key,
    pub ticket_class: Key,
    pub ticket: Key,
    pub seller: Key,
    pub price_lamports: u64,
    pub expires_at: i64,
    pub is_active: bool,
    pub close_reason: u8,
    pub closed_at: i64,
    pub created_at: i64,
    pub updated_at: i64,
}

/// The rules that govern resale of a ticket class.
#[derive(Clone, Debug)]
pub struct ResalePolicy {
    pub bump: u8,
    pub schema_version: u16,
    pub deprecated_layout_version: u16,
    pub replacement_account: Key,
    pub deprecated_at: i64,
    pub event: Key,
    pub ticket_class: Key,
    pub class_id: u16,
    pub max_markup_bps: u16,
    pub royalty_bps: u16,
    pub royalty_vault: Key,
    pub transfer_cooldown_secs: i64,
    pub max_transfer_count: u16,
    pub transfer_lock_before_event_secs: i64,
    pub whitelist: Vec<Key>,
    pub blacklist: Vec<Key>,
    pub created_at: i64,
    pub updated_at: i64,
}

/// New resale rules, as an organizer or the admin sets them.
#[derive(Clone, Debug)]
pub struct ResalePolicyInput {
    pub max_markup_bps: u16,
    pub royalty_bps: u16,
    pub royalty_vault: Key,
    pub transfer_cooldown_secs: i64,
    pub max_transfer_count: u16,
    pub transfer_lock_before_event_secs: i64,
    pub whitelist: Vec<Key>,
    pub blacklist: Vec<Key>,
}

/// An advance offered to an organizer against future revenue.
#[derive(Clone, Debug)]
pub struct FinancingOffer {
    pub bump: u8,
    pub schema_version: u16,
    pub deprecated_layout_version: u16,
    pub replacement_account: Key,
    pub deprecated_at: i64,
    pub event: Key,
    pub organizer: Key,
    pub offer_authority: Key,
    pub advance_amount_lamports: u64,
    pub fee_bps: u16,
    pub repayment_cap_lamports: u64,
    pub schedule_start_ts: i64,
    pub schedule_interval_secs: i64,
    pub schedule_installments: u16,
    pub max_disbursements: u16,
    pub status: FinancingLifecycleStatus,
    pub terms_locked: bool,
    pub financing_frozen: bool,
    pub clawback_allowed: bool,
    pub freeze_reason_code: u16,
    pub accepted_by: Key,
    pub accepted_at: i64,
    pub rejected_by: Key,
    pub rejected_at: i64,
    pub total_disbursed_lamports: u64,
    pub disbursement_count: u16,
    pub disbursed_at: i64,
    pub compliance_decision_code: u16,
    pub compliance_checked_at: i64,
    pub created_at: i64,
    pub updated_at: i64,
}

/// Terms of a financing offer.
#[derive(Clone, Copy, Debug)]
pub struct FinancingOfferInput {
    pub advance_amount_lamports: u64,
    pub fee_bps: u16,
    pub repayment_cap_lamports: u64,
    pub schedule_start_ts: i64,
    pub schedule_interval_secs: i64,
    pub schedule_installments: u16,
}

/// One payment of an advance to the organizer.
#[derive(Clone, Debug)]
pub struct DisbursementRecord {
    pub bump: u8,
    pub financing_offer: Key,
    pub disbursement_index: u16,
    pub amount_lamports: u64,
    pub executed_by: Key,
    pub destination_wallet: Key,
    pub reference_id: [u8; 16],
    pub executed_at: i64,
    pub clawed_back: bool,
    pub clawed_back_at: i64,
}

/// Running totals of revenue routed for an event.
#[derive(Clone, Debug)]
pub struct SettlementLedger {
    pub bump: u8,
    pub event: Key,
    pub organizer: Key,
    pub financing_offer: Key,
    pub cumulative_primary_routed_lamports: u64,
    pub cumulative_secondary_routed_lamports: u64,
    pub cumulative_financier_paid_lamports: u64,
    pub cumulative_organizer_paid_lamports: u64,
    pub cumulative_protocol_paid_lamports: u64,
    pub cumulative_royalty_paid_lamports: u64,
    pub cumulative_other_paid_lamports: u64,
    pub financing_settled: bool,
    pub settled_at: i64,
    pub settlement_in_progress: bool,
    pub last_settlement_reference: [u8; 16],
    pub created_at: i64,
    pub updated_at: i64,
}

/// Loyalty points of a wallet.
#[derive(Clone, Debug)]
pub struct LoyaltyLedger {
    pub bump: u8,
    pub schema_version: u16,
    pub deprecated_layout_version: u16,
    pub replacement_account: Key,
    pub deprecated_at: i64,
    pub wallet: Key,
    pub total_accrued_points: u64,
    pub total_redeemed_points: u64,
    pub available_points: u64,
    pub last_event: Key,
    pub last_reason: u8,
    pub last_accrued_at: i64,
    pub last_redeemed_at: i64,
    pub created_at: i64,
    pub updated_at: i64,
}

impl LoyaltyLedger {
    /// Points on hand are exactly what was earned less what was spent.
    pub open spec fn points_balanced(&self) -> bool {
        self.available_points + self.total_redeemed_points == self.total_accrued_points
    }
}

/// Behavioural signals about a wallet.
#[derive(Clone, Debug)]
pub struct TrustSignal {
    pub bump: u8,
    pub wallet: Key,
    pub schema_version: u16,
    pub total_tickets_purchased: u32,
    pub attendance_eligible_count: u32,
    pub attendance_attended_count: u32,
    pub abuse_flags: u32,
    pub abuse_incidents: u16,
    pub last_event: Key,
    pub last_ticket: Key,
    pub created_at: i64,
    pub updated_at: i64,
}

/// A role granted to a subject over a target account.
#[derive(Clone, Debug)]
pub struct RoleBinding {
    pub bump: u8,
    pub role: u8,
    pub scope: u8,
    pub active: bool,
    pub target: Key,
    pub subject: Key,
    pub granted_by: Key,
    pub starts_at: i64,
    pub expires_at: i64,
    pub revoked_at: i64,
    pub last_audit_reference: [u8; 16],
    pub last_correlation_id: [u8; 16],
    pub created_at: i64,
    pub updated_at: i64,
}

/// Book-keeping of a lamport vault.
#[derive(Clone, Debug)]
pub struct VaultAccount {
    pub bump: u8,
    pub vault_bump: u8,
    pub kind: u8,
    pub parent: Key,
    pub vault: Key,
    pub controller: Key,
    pub authority: Key,
    pub last_recorded_balance_lamports: u64,
    pub total_inflow_lamports: u64,
    pub total_outflow_lamports: u64,
    pub created_at: i64,
    pub updated_at: i64,
}

/// Allow and deny lists kept for the protocol or for one event.
#[derive(Clone, Debug)]
pub struct ComplianceRegistry {
    pub bump: u8,
    pub scope: u8,
    pub target: Key,
    pub allowlist: Vec<Key>,
    pub denylist: Vec<Key>,
    pub entity_denylist: Vec<Key>,
    pub updated_at: i64,
}

} // verus!
