use anchor_lang::prelude::Pubkey;
use anchor_lang::solana_program::hash::hashv;
use ticketing_core::correlation::derive_correlation_id;
use ticketing_core::compliance::{
    evaluate_compliance, find_event_address, set_event_restrictions, upsert_registry_entry,
    EventScopeProof, RegistryEntryChange,
};
use ticketing_core::error::TicketingError;
use ticketing_core::financing::{
    accept_financing_offer, clawback_disbursement, create_financing_offer, disburse_advance,
    set_financing_freeze, validate_financing_input, OfferKeys,
};
use ticketing_core::key::{contains_key, Key};
use ticketing_core::loyalty::{accrue_points, redeem_points, set_global_loyalty_multiplier};
use ticketing_core::math::{prorata_bps, SafeMath};
use ticketing_core::migrations::{
    deserialize_loyalty_ledger_compat, payload_without_discriminator, LoyaltyLedgerV0,
};
use ticketing_core::pda::u64_le_bytes;
use ticketing_core::resale::{
    buy_resale_ticket, cancel_listing, expire_listing, list_ticket, max_resale_price,
    set_resale_policy, ListingKeys, PolicyKeys,
};
use ticketing_core::roles::{
    find_organizer_profile_address, find_role_binding_address, grant_role,
    is_authorized_with_role, is_organizer_authorized, revoke_role, role_is_active,
    rotate_authority, validate_role, RoleContext,
};
use ticketing_core::settlement::{
    assert_waterfall_bps, finalize_settlement, settle_primary_revenue, SettlementKeys,
    SettlementOutcome, SettlementWallets,
};
use ticketing_core::state::{
    ComplianceRegistry, EventAccount, EventStatus, FinancingLifecycleStatus, FinancingOffer,
    FinancingOfferInput, Listing, LoyaltyLedger, OrganizerProfile, OrganizerStatus, ProtocolConfig,
    ResalePolicy, ResalePolicyInput, RoleBinding, SettlementLedger, Ticket, TicketClass,
    TicketStatus, TrustSignal, VaultAccount,
};
use ticketing_core::treasury::{
    initialize_vault, is_withdraw_authorized, snapshot_vault, withdraw_vault, RoleBindingProof,
    VaultFunds, VaultParents,
};
use ticketing_core::trust_signal::{
    count_set_bits, flag_abuse, record_attendance_input, record_purchase_input, set_schema_version,
};

fn k(b: u8) -> Key {
    Key::new([b; 32])
}

fn config() -> ProtocolConfig {
    ProtocolConfig {
        bump: 255,
        admin: k(1),
        upgrade_authority: k(2),
        pending_upgrade_authority: Key::zero(),
        upgrade_handoff_started_at: 0,
        upgrade_handoff_eta: 0,
        timelock_delay_secs: 0,
        pending_protocol_fee_bps: 0,
        pending_max_tickets_per_wallet: 0,
        config_change_eta: 0,
        multisig_enabled: false,
        multisig_threshold: 0,
        multisig_signer_1: Key::zero(),
        multisig_signer_2: Key::zero(),
        multisig_signer_3: Key::zero(),
        emergency_admin: k(9),
        emergency_action_nonce: 0,
        treasury_vault: k(3),
        fee_vault: k(4),
        protocol_fee_bps: 250,
        loyalty_multiplier_bps: 10_000,
        max_tickets_per_wallet: 10,
        is_paused: false,
        created_at: 1,
        updated_at: 1,
    }
}

fn organizer() -> OrganizerProfile {
    OrganizerProfile {
        bump: 254,
        authority: k(10),
        payout_wallet: k(11),
        status: OrganizerStatus::Active,
        compliance_flags: 0,
        metadata_uri: String::new(),
        created_at: 1,
        updated_at: 1,
    }
}

fn event() -> EventAccount {
    EventAccount {
        bump: 253,
        schema_version: 1,
        deprecated_layout_version: 0,
        replacement_account: Key::zero(),
        deprecated_at: 0,
        organizer: k(12),
        event_id: 7,
        title: String::from("Show"),
        venue: String::from("Hall"),
        start_ts: 10_000,
        end_ts: 20_000,
        sales_start_ts: 1_000,
        lock_ts: 5_000,
        capacity: 100,
        loyalty_multiplier_bps: 10_000,
        compliance_restriction_flags: 0,
        is_paused: false,
        status: EventStatus::Draft,
        created_at: 1,
        updated_at: 1,
    }
}

fn class() -> TicketClass {
    TicketClass {
        bump: 252,
        event: k(13),
        class_id: 1,
        name: String::from("GA"),
        total_supply: 100,
        reserved_supply: 10,
        sold_supply: 5,
        refunded_supply: 0,
        remaining_supply: 85,
        face_price_lamports: 1_000_000,
        sale_start_ts: 1_000,
        sale_end_ts: 9_000,
        per_wallet_limit: 2,
        is_transferable: true,
        is_resale_enabled: true,
        allow_reentry: false,
        max_reentries: 0,
        stakeholder_wallet: k(20),
        stakeholder_bps: 500,
        created_at: 1,
        updated_at: 1,
    }
}

fn ticket() -> Ticket {
    Ticket {
        bump: 251,
        schema_version: 1,
        deprecated_layout_version: 0,
        replacement_account: Key::zero(),
        deprecated_at: 0,
        event: k(13),
        ticket_class: k(14),
        owner: k(30),
        buyer: k(30),
        ticket_id: 1,
        status: TicketStatus::Active,
        paid_amount_lamports: 1_000_000,
        is_comp: false,
        created_at: 2_000,
        status_updated_at: 2_000,
        checked_in_at: 0,
        last_check_in_at: 0,
        check_in_count: 0,
        last_check_in_gate_id: String::new(),
        refunded_at: 0,
        refund_source: 0,
        refund_amount_lamports: 0,
        invalidated_at: 0,
        is_disputed: false,
        is_chargeback: false,
        disputed_at: 0,
        dispute_reason_code: 0,
        dispute_updated_at: 0,
        metadata_uri: String::new(),
        metadata_version: 0,
        metadata_updated_at: 0,
        transfer_count: 0,
        last_transfer_at: 0,
        compliance_decision_code: 0,
        compliance_checked_at: 0,
        purchase_trust_recorded: false,
        attendance_trust_recorded: false,
    }
}

fn policy() -> ResalePolicy {
    ResalePolicy {
        bump: 250,
        schema_version: 1,
        deprecated_layout_version: 0,
        replacement_account: Key::zero(),
        deprecated_at: 0,
        event: k(13),
        ticket_class: k(14),
        class_id: 1,
        max_markup_bps: 2_000,
        royalty_bps: 500,
        royalty_vault: k(21),
        transfer_cooldown_secs: 0,
        max_transfer_count: 0,
        transfer_lock_before_event_secs: 0,
        whitelist: Vec::new(),
        blacklist: Vec::new(),
        created_at: 1,
        updated_at: 1,
    }
}

fn closed_listing() -> Listing {
    Listing {
        bump: 0,
        event: Key::zero(),
        ticket_class: Key::zero(),
        ticket: Key::zero(),
        seller: Key::zero(),
        price_lamports: 0,
        expires_at: 0,
        is_active: false,
        close_reason: 0,
        closed_at: 0,
        created_at: 0,
        updated_at: 0,
    }
}

fn listing_keys() -> ListingKeys {
    ListingKeys { event: k(13), ticket_class: k(14), ticket: k(15) }
}

#[test]
fn prorata_exact_values() {
    assert_eq!(prorata_bps(1_000_000, 250), Ok(25_000));
    assert_eq!(prorata_bps(9_999, 1), Ok(0));
    assert_eq!(prorata_bps(u64::MAX, 10_000), Ok(u64::MAX));
    assert_eq!(prorata_bps(u64::MAX, 10_001), Err(TicketingError::MathOverflow));
    assert_eq!(prorata_bps(0, 65_535), Ok(0));
}

#[test]
fn safe_math_checks_every_operation() {
    assert_eq!(7u64.safe_add(8), Ok(15));
    assert_eq!(u64::MAX.safe_add(1), Err(TicketingError::MathOverflow));
    assert_eq!(3u64.safe_sub(4), Err(TicketingError::MathOverflow));
    assert_eq!(9u32.safe_sub(4), Ok(5));
    assert_eq!(70_000u32.safe_mul(70_000), Err(TicketingError::MathOverflow));
    assert_eq!(6u32.safe_mul(7), Ok(42));
}

#[test]
fn max_resale_price_applies_the_markup() {
    assert_eq!(max_resale_price(1_000_000, 2_000), 1_200_000);
    assert_eq!(max_resale_price(3, 5_000), 4);
}

#[test]
fn listing_and_resale() {
    let cfg = config();
    let c = class();
    let p = policy();
    let mut t = ticket();
    let mut l = closed_listing();
    assert_eq!(
        list_ticket(&cfg, &c, &p, &t, &mut l, &listing_keys(), 7, k(30), 1_200_001, 5_000, 3_000),
        Err(TicketingError::ListingExceedsMaxMarkup)
    );
    assert_eq!(
        list_ticket(&cfg, &c, &p, &t, &mut l, &listing_keys(), 7, k(31), 1_100_000, 5_000, 3_000),
        Err(TicketingError::Unauthorized)
    );
    assert_eq!(
        list_ticket(&cfg, &c, &p, &t, &mut l, &listing_keys(), 7, k(30), 1_100_000, 3_000, 3_000),
        Err(TicketingError::InvalidListingExpiry)
    );
    assert_eq!(
        list_ticket(&cfg, &c, &p, &t, &mut l, &listing_keys(), 7, k(30), 1_100_000, 5_000, 3_000),
        Ok(())
    );
    assert!(l.is_active);
    assert_eq!(l.price_lamports, 1_100_000);
    assert!(l.seller.same(&k(30)));
    assert_eq!(
        list_ticket(&cfg, &c, &p, &t, &mut l, &listing_keys(), 7, k(30), 1_100_000, 5_000, 3_000),
        Err(TicketingError::ListingNotActive)
    );
    let ev = event();
    assert_eq!(
        buy_resale_ticket(&cfg, &ev, &c, &p, &mut t, &mut l, k(30), 2_000_000, 3_100).err(),
        Some(TicketingError::Unauthorized)
    );
    assert_eq!(
        buy_resale_ticket(&cfg, &ev, &c, &p, &mut t, &mut l, k(40), 1_000_000, 3_100).err(),
        Some(TicketingError::InvalidResalePrice)
    );
    let payout = buy_resale_ticket(&cfg, &ev, &c, &p, &mut t, &mut l, k(40), 1_100_000, 3_100).unwrap();
    assert_eq!(payout.royalty_amount, 55_000);
    assert_eq!(payout.seller_amount, 1_045_000);
    assert!(t.owner.same(&k(40)));
    assert!(t.buyer.same(&k(30)));
    assert_eq!(t.transfer_count, 1);
    assert_eq!(t.last_transfer_at, 3_100);
    assert!(!l.is_active);
    assert_eq!(l.close_reason, 2);
    assert_eq!(
        buy_resale_ticket(&cfg, &ev, &c, &p, &mut t, &mut l, k(41), 1_100_000, 3_200).err(),
        Some(TicketingError::ListingNotActive)
    );
}

#[test]
fn resale_rules_of_the_policy() {
    let cfg = config();
    let c = class();
    let ev = event();
    let listing = Listing {
        bump: 1,
        event: k(13),
        ticket_class: k(14),
        ticket: k(15),
        seller: k(30),
        price_lamports: 1_000_000,
        expires_at: 9_000,
        is_active: true,
        close_reason: 0,
        closed_at: 0,
        created_at: 3_000,
        updated_at: 3_000,
    };
    let mut p = policy();
    p.whitelist = vec![k(50)];
    let mut t = ticket();
    let mut l = listing.clone();
    assert_eq!(
        buy_resale_ticket(&cfg, &ev, &c, &p, &mut t, &mut l, k(40), 1_000_000, 3_100).err(),
        Some(TicketingError::RecipientNotWhitelisted)
    );
    let mut p = policy();
    p.blacklist = vec![k(40)];
    assert_eq!(
        buy_resale_ticket(&cfg, &ev, &c, &p, &mut t, &mut l, k(40), 1_000_000, 3_100).err(),
        Some(TicketingError::RecipientBlacklisted)
    );
    let mut p = policy();
    p.transfer_cooldown_secs = 500;
    t.last_transfer_at = 3_000;
    assert_eq!(
        buy_resale_ticket(&cfg, &ev, &c, &p, &mut t, &mut l, k(40), 1_000_000, 3_100).err(),
        Some(TicketingError::TransferCooldownActive)
    );
    let mut p = policy();
    p.max_transfer_count = 1;
    t.transfer_count = 1;
    assert_eq!(
        buy_resale_ticket(&cfg, &ev, &c, &p, &mut t, &mut l, k(40), 1_000_000, 3_100).err(),
        Some(TicketingError::MaxTransferCountExceeded)
    );
    let mut p = policy();
    p.transfer_lock_before_event_secs = 7_000;
    assert_eq!(
        buy_resale_ticket(&cfg, &ev, &c, &p, &mut t, &mut l, k(40), 1_000_000, 3_100).err(),
        Some(TicketingError::TransferLockedByEventStart)
    );
    assert_eq!(
        buy_resale_ticket(&cfg, &ev, &c, &policy(), &mut t, &mut l, k(40), 1_000_000, 9_001).err(),
        Some(TicketingError::ListingExpired)
    );
    t.is_disputed = true;
    assert_eq!(
        buy_resale_ticket(&cfg, &ev, &c, &policy(), &mut t, &mut l, k(40), 1_000_000, 3_100).err(),
        Some(TicketingError::TicketDisputed)
    );
    assert!(l.is_active);
}

#[test]
fn cancelling_and_expiring_listings() {
    let cfg = config();
    let mut l = Listing { seller: k(30), is_active: true, expires_at: 5_000, ..closed_listing() };
    assert_eq!(expire_listing(&cfg, &mut l, 5_000), Err(TicketingError::ListingNotYetExpired));
    assert_eq!(cancel_listing(&cfg, &mut l, k(31), 4_000), Err(TicketingError::Unauthorized));
    assert_eq!(cancel_listing(&cfg, &mut l, k(30), 4_000), Ok(1));
    assert!(!l.is_active);
    assert_eq!(cancel_listing(&cfg, &mut l, k(30), 4_000), Err(TicketingError::ListingNotActive));
    let mut l2 = Listing { seller: k(30), is_active: true, expires_at: 5_000, ..closed_listing() };
    assert_eq!(cancel_listing(&cfg, &mut l2, k(1), 6_000), Ok(3));
    let mut l3 = Listing { seller: k(30), is_active: true, expires_at: 5_000, ..closed_listing() };
    assert_eq!(expire_listing(&cfg, &mut l3, 5_001), Ok(()));
    assert_eq!(l3.close_reason, 3);
    assert_eq!(l3.closed_at, 5_001);
}

#[test]
fn resale_policy_updates() {
    let input = ResalePolicyInput {
        max_markup_bps: 1_500,
        royalty_bps: 300,
        royalty_vault: k(22),
        transfer_cooldown_secs: 60,
        max_transfer_count: 3,
        transfer_lock_before_event_secs: 3_600,
        whitelist: vec![k(50)],
        blacklist: Vec::new(),
    };
    let keys = PolicyKeys { event: k(13), ticket_class: k(14) };
    let mut p = policy();
    assert_eq!(
        set_resale_policy(&config(), &organizer(), &class(), &mut p, &keys, 3, 1, k(10), input.clone(), 40),
        Ok(())
    );
    assert_eq!(p.max_markup_bps, 1_500);
    assert_eq!(p.royalty_bps, 300);
    assert_eq!(p.max_transfer_count, 3);
    assert!(contains_key(&p.whitelist, &k(50)));
    let bad = ResalePolicyInput { royalty_bps: 10_001, ..input.clone() };
    assert_eq!(
        set_resale_policy(&config(), &organizer(), &class(), &mut p, &keys, 3, 1, k(10), bad, 41),
        Err(TicketingError::InvalidFeeBps)
    );
    assert_eq!(
        set_resale_policy(&config(), &organizer(), &class(), &mut p, &keys, 3, 1, k(77), input.clone(), 41),
        Err(TicketingError::Unauthorized)
    );
    let mut closed = class();
    closed.is_resale_enabled = false;
    assert_eq!(
        set_resale_policy(&config(), &organizer(), &closed, &mut p, &keys, 3, 1, k(10), input, 41),
        Err(TicketingError::ResaleDisabled)
    );
    assert_eq!(p.royalty_bps, 300);
}

fn offer() -> FinancingOffer {
    FinancingOffer {
        bump: 0,
        schema_version: 0,
        deprecated_layout_version: 0,
        replacement_account: Key::zero(),
        deprecated_at: 0,
        event: Key::zero(),
        organizer: Key::zero(),
        offer_authority: Key::zero(),
        advance_amount_lamports: 0,
        fee_bps: 0,
        repayment_cap_lamports: 0,
        schedule_start_ts: 0,
        schedule_interval_secs: 0,
        schedule_installments: 0,
        max_disbursements: 0,
        status: FinancingLifecycleStatus::Draft,
        terms_locked: false,
        financing_frozen: false,
        clawback_allowed: false,
        freeze_reason_code: 0,
        accepted_by: Key::zero(),
        accepted_at: 0,
        rejected_by: Key::zero(),
        rejected_at: 0,
        total_disbursed_lamports: 0,
        disbursement_count: 0,
        disbursed_at: 0,
        compliance_decision_code: 0,
        compliance_checked_at: 0,
        created_at: 0,
        updated_at: 0,
    }
}

fn terms() -> FinancingOfferInput {
    FinancingOfferInput {
        advance_amount_lamports: 1_000_000,
        fee_bps: 500,
        repayment_cap_lamports: 1_200_000,
        schedule_start_ts: 0,
        schedule_interval_secs: 86_400,
        schedule_installments: 2,
    }
}

#[test]
fn financing_terms_validation() {
    assert_eq!(validate_financing_input(&terms()), Ok(()));
    let bad = FinancingOfferInput { advance_amount_lamports: 0, ..terms() };
    assert_eq!(validate_financing_input(&bad), Err(TicketingError::InvalidFinancingAdvanceAmount));
    let bad = FinancingOfferInput { fee_bps: 10_001, ..terms() };
    assert_eq!(validate_financing_input(&bad), Err(TicketingError::InvalidFeeBps));
    let bad = FinancingOfferInput { repayment_cap_lamports: 999_999, ..terms() };
    assert_eq!(validate_financing_input(&bad), Err(TicketingError::InvalidRepaymentCap));
    let bad = FinancingOfferInput { schedule_installments: 0, ..terms() };
    assert_eq!(validate_financing_input(&bad), Err(TicketingError::InvalidFinancingSchedule));
}

#[test]
fn financing_disbursements_stay_within_the_advance() {
    let cfg = config();
    let ev = event();
    let keys = OfferKeys { event: k(13), organizer_profile: k(12) };
    let mut o = offer();
    assert_eq!(create_financing_offer(&cfg, &k(10), &mut o, &keys, 9, k(60), terms(), 100), Ok(()));
    assert_eq!(o.status, FinancingLifecycleStatus::Draft);
    assert_eq!(o.max_disbursements, 2);
    assert_eq!(
        disburse_advance(&cfg, &ev, &mut o, k(70), 1, k(60), k(11), 600_000, [1; 16], 200).err(),
        Some(TicketingError::FinancingOfferNotAccepted)
    );
    assert_eq!(accept_financing_offer(&cfg, &mut o, k(10), true, 150), Ok(()));
    assert!(o.terms_locked);
    assert_eq!(o.status, FinancingLifecycleStatus::Accepted);
    assert_eq!(
        create_financing_offer(&cfg, &k(10), &mut o, &keys, 9, k(60), terms(), 160),
        Err(TicketingError::FinancingTermsLocked)
    );
    assert_eq!(
        disburse_advance(&cfg, &ev, &mut o, k(70), 1, k(60), k(11), 600_000, [0; 16], 200).err(),
        Some(TicketingError::InvalidDisbursementReference)
    );
    let first = disburse_advance(&cfg, &ev, &mut o, k(70), 1, k(60), k(11), 600_000, [1; 16], 200).unwrap();
    assert_eq!(first.disbursement_index, 1);
    assert_eq!(first.amount_lamports, 600_000);
    assert_eq!(o.total_disbursed_lamports, 600_000);
    assert_eq!(o.status, FinancingLifecycleStatus::PartiallyDisbursed);
    assert_eq!(
        disburse_advance(&cfg, &ev, &mut o, k(70), 2, k(60), k(11), 400_001, [2; 16], 300).err(),
        Some(TicketingError::InvalidDisbursementAmount)
    );
    let second = disburse_advance(&cfg, &ev, &mut o, k(70), 2, k(60), k(11), 300_000, [2; 16], 300).unwrap();
    assert_eq!(second.disbursement_index, 2);
    assert_eq!(o.total_disbursed_lamports, 900_000);
    assert_eq!(o.status, FinancingLifecycleStatus::PartiallyDisbursed);
    assert_eq!(
        disburse_advance(&cfg, &ev, &mut o, k(70), 3, k(60), k(11), 1, [3; 16], 400).err(),
        Some(TicketingError::DisbursementLimitExceeded)
    );
    let mut record = second;
    assert_eq!(
        clawback_disbursement(&cfg, &mut o, &mut record, 2, 500),
        Err(TicketingError::FinancingFrozen)
    );
    assert_eq!(set_financing_freeze(&cfg, &mut o, true, 9, true, 450), Ok(()));
    assert_eq!(
        clawback_disbursement(&cfg, &mut o, &mut record, 1, 500),
        Err(TicketingError::Unauthorized)
    );
    assert_eq!(clawback_disbursement(&cfg, &mut o, &mut record, 2, 500), Ok(300_000));
    assert!(record.clawed_back);
    assert_eq!(o.total_disbursed_lamports, 600_000);
    assert_eq!(o.status, FinancingLifecycleStatus::PartiallyDisbursed);
    assert_eq!(
        clawback_disbursement(&cfg, &mut o, &mut record, 2, 501),
        Err(TicketingError::DisbursementAlreadyClawedBack)
    );
}

fn fresh_ledger() -> SettlementLedger {
    SettlementLedger {
        bump: 0,
        event: Key::zero(),
        organizer: Key::zero(),
        financing_offer: Key::zero(),
        cumulative_primary_routed_lamports: 0,
        cumulative_secondary_routed_lamports: 0,
        cumulative_financier_paid_lamports: 0,
        cumulative_organizer_paid_lamports: 0,
        cumulative_protocol_paid_lamports: 0,
        cumulative_royalty_paid_lamports: 0,
        cumulative_other_paid_lamports: 0,
        financing_settled: false,
        settled_at: 0,
        settlement_in_progress: false,
        last_settlement_reference: [0; 16],
        created_at: 0,
        updated_at: 0,
    }
}

fn wallets() -> SettlementWallets {
    SettlementWallets {
        revenue_source: k(80),
        financier_wallet: k(81),
        organizer_payout_wallet: k(82),
        protocol_fee_vault: k(83),
        royalty_vault: k(84),
        other_vault: k(85),
    }
}

#[test]
fn waterfall_bps_must_fit_in_a_whole() {
    assert_eq!(assert_waterfall_bps(5_000, 3_000, 2_000), Ok(()));
    assert_eq!(assert_waterfall_bps(5_000, 3_000, 2_001), Err(TicketingError::InvalidWaterfallBps));
}

#[test]
fn primary_revenue_waterfall_pays_the_financier_first() {
    let cfg = config();
    let ev = event();
    let org = organizer();
    let keys = SettlementKeys { event: k(13), organizer_profile: k(12), financing_offer: k(16), program_id: k(100) };
    let mut o = offer();
    o.repayment_cap_lamports = 600_000;
    o.status = FinancingLifecycleStatus::Disbursed;
    let mut ledger = fresh_ledger();
    let out = settle_primary_revenue(&cfg, &ev, &org, &k(10), &keys, &wallets(), &mut o, &mut ledger, 1_000_000, 250, 500, 100, [7; 16], 900)
        .unwrap();
    match out {
        SettlementOutcome::Settled(split) => {
            assert_eq!(split.protocol_amount, 25_000);
            assert_eq!(split.royalty_amount, 50_000);
            assert_eq!(split.other_amount, 10_000);
            assert_eq!(split.financier_amount, 600_000);
            assert_eq!(split.organizer_amount, 315_000);
            let total = split.protocol_amount + split.royalty_amount + split.other_amount
                + split.financier_amount + split.organizer_amount;
            assert_eq!(total, 1_000_000);
        },
        SettlementOutcome::Replayed => panic!("a fresh reference was taken as a replay"),
    }
    let expected_bump = Pubkey::find_program_address(
        &[b"settlement_ledger".as_ref(), &[13u8; 32]],
        &Pubkey::new_from_array([100u8; 32]),
    )
    .1;
    assert_eq!(ledger.bump, expected_bump);
    assert_eq!(ledger.cumulative_primary_routed_lamports, 1_000_000);
    assert_eq!(ledger.cumulative_financier_paid_lamports, 600_000);
    assert_eq!(ledger.last_settlement_reference, [7; 16]);
    assert!(!ledger.settlement_in_progress);
    assert!(ledger.financing_settled);
    assert_eq!(ledger.settled_at, 900);
    assert_eq!(o.status, FinancingLifecycleStatus::Settled);
    // The same reference again changes nothing.
    let again = settle_primary_revenue(&cfg, &ev, &org, &k(10), &keys, &wallets(), &mut o, &mut ledger, 1_000_000, 250, 500, 100, [7; 16], 901)
        .unwrap();
    assert!(matches!(again, SettlementOutcome::Replayed));
    assert_eq!(ledger.cumulative_primary_routed_lamports, 1_000_000);
    assert_eq!(ledger.updated_at, 900);
    // A further settlement pays the organizer only, the cap being reached.
    let third = settle_primary_revenue(&cfg, &ev, &org, &k(10), &keys, &wallets(), &mut o, &mut ledger, 10_000, 0, 0, 0, [8; 16], 902)
        .unwrap();
    match third {
        SettlementOutcome::Settled(split) => {
            assert_eq!(split.financier_amount, 0);
            assert_eq!(split.organizer_amount, 10_000);
        },
        SettlementOutcome::Replayed => panic!("a new reference was taken as a replay"),
    }
    assert_eq!(finalize_settlement(&cfg, &mut o, &mut ledger, 903), Ok(()));
    assert!(ledger.financing_settled);
    assert_eq!(ledger.settled_at, 900);
    assert_eq!(ledger.updated_at, 903);
}

#[test]
fn settlement_refusals() {
    let cfg = config();
    let ev = event();
    let org = organizer();
    let keys = SettlementKeys { event: k(13), organizer_profile: k(12), financing_offer: k(16), program_id: k(100) };
    let mut o = offer();
    o.repayment_cap_lamports = 600_000;
    let mut ledger = fresh_ledger();
    assert_eq!(
        settle_primary_revenue(&cfg, &ev, &org, &k(10), &keys, &wallets(), &mut o, &mut ledger, 1_000, 250, 500, 100, [0; 16], 1).err(),
        Some(TicketingError::InvalidSettlementReference)
    );
    assert_eq!(
        settle_primary_revenue(&cfg, &ev, &org, &k(99), &keys, &wallets(), &mut o, &mut ledger, 1_000, 250, 500, 100, [1; 16], 1).err(),
        Some(TicketingError::Unauthorized)
    );
    assert_eq!(
        settle_primary_revenue(&cfg, &ev, &org, &k(10), &keys, &wallets(), &mut o, &mut ledger, 0, 250, 500, 100, [1; 16], 1).err(),
        Some(TicketingError::InvalidSettlementAmount)
    );
    assert_eq!(
        settle_primary_revenue(&cfg, &ev, &org, &k(10), &keys, &wallets(), &mut o, &mut ledger, 1_000, 9_000, 500, 501, [1; 16], 1).err(),
        Some(TicketingError::InvalidWaterfallBps)
    );
    let self_paying = SettlementWallets { financier_wallet: k(80), ..wallets() };
    assert_eq!(
        settle_primary_revenue(&cfg, &ev, &org, &k(10), &keys, &self_paying, &mut o, &mut ledger, 1_000, 250, 500, 100, [1; 16], 1).err(),
        Some(TicketingError::InvalidSettlementAmount)
    );
    ledger.settlement_in_progress = true;
    assert_eq!(
        settle_primary_revenue(&cfg, &ev, &org, &k(10), &keys, &wallets(), &mut o, &mut ledger, 1_000, 250, 500, 100, [1; 16], 1).err(),
        Some(TicketingError::SettlementInProgress)
    );
    assert_eq!(ledger.created_at, 0);
    assert_eq!(finalize_settlement(&cfg, &mut o, &mut ledger, 2), Err(TicketingError::FinancingNotSettled));
}

fn vault_state() -> VaultAccount {
    VaultAccount {
        bump: 0,
        vault_bump: 0,
        kind: 0,
        parent: Key::zero(),
        vault: Key::zero(),
        controller: Key::zero(),
        authority: Key::zero(),
        last_recorded_balance_lamports: 0,
        total_inflow_lamports: 0,
        total_outflow_lamports: 0,
        created_at: 0,
        updated_at: 0,
    }
}

fn parents() -> VaultParents {
    VaultParents {
        protocol_config_key: k(5),
        organizer_profile_key: k(12),
        organizer_profile: Some(organizer()),
        event_account_key: k(13),
        event_account: Some(event()),
        financing_offer_key: k(16),
        financing_offer: None,
    }
}

fn no_binding() -> RoleBindingProof {
    RoleBindingProof { key: Key::zero(), binding: None, program_id: k(100) }
}

#[test]
fn vault_books_follow_the_balance() {
    let funds = VaultFunds { vault: k(90), vault_bump: 1, state_bump: 2, balance_lamports: 0, rent_lamports: 890 };
    let mut v = vault_state();
    assert_eq!(
        initialize_vault(&config(), &parents(), &no_binding(), &mut v, &funds, k(10), 5, k(12), 10),
        Err(TicketingError::InvalidVaultKind)
    );
    assert_eq!(
        initialize_vault(&config(), &parents(), &no_binding(), &mut v, &funds, k(10), 2, k(13), 10),
        Err(TicketingError::InvalidVaultParent)
    );
    assert_eq!(
        initialize_vault(&config(), &parents(), &no_binding(), &mut v, &funds, k(10), 2, k(12), 10),
        Ok(true)
    );
    assert!(v.controller.same(&k(12)));
    assert!(v.authority.same(&k(10)));
    assert_eq!(v.last_recorded_balance_lamports, 890);
    assert_eq!(snapshot_vault(&mut v, k(90), 2, k(12), 1_890, 11), Ok(()));
    assert_eq!(v.total_inflow_lamports, 1_000);
    assert_eq!(
        withdraw_vault(&mut v, &no_binding(), k(90), 2, k(12), k(10), 2_000, 1_890, 12),
        Err(TicketingError::InsufficientVaultBalance)
    );
    assert_eq!(withdraw_vault(&mut v, &no_binding(), k(90), 2, k(12), k(10), 500, 1_890, 12), Ok(()));
    assert_eq!(v.total_outflow_lamports, 500);
    assert_eq!(v.last_recorded_balance_lamports, 1_390);
    assert_eq!(
        v.total_inflow_lamports as i128 - v.total_outflow_lamports as i128,
        v.last_recorded_balance_lamports as i128 - 890
    );
    assert_eq!(snapshot_vault(&mut v, k(90), 2, k(12), 1_000, 13), Ok(()));
    assert_eq!(v.total_outflow_lamports, 890);
    assert_eq!(
        withdraw_vault(&mut v, &no_binding(), k(90), 2, k(12), k(77), 1, 1_000, 14),
        Err(TicketingError::Unauthorized)
    );
    assert_eq!(snapshot_vault(&mut v, k(91), 2, k(12), 1_000, 13), Err(TicketingError::InvalidVaultParent));
}

fn binding() -> RoleBinding {
    RoleBinding {
        bump: 0,
        role: 0,
        scope: 0,
        active: false,
        target: Key::zero(),
        subject: Key::zero(),
        granted_by: Key::zero(),
        starts_at: 0,
        expires_at: 0,
        revoked_at: 0,
        last_audit_reference: [0; 16],
        last_correlation_id: [0; 16],
        created_at: 0,
        updated_at: 0,
    }
}


#[test]
fn roles_are_granted_checked_and_revoked() {
    assert_eq!(validate_role(1, 1), Ok(()));
    assert_eq!(validate_role(1, 2), Err(TicketingError::InvalidRole));
    assert_eq!(validate_role(2, 4), Ok(()));
    assert_eq!(validate_role(3, 1), Err(TicketingError::InvalidRoleScope));
    let ctx = RoleContext {
        protocol_config_key: k(5),
        target: k(5),
        subject: k(60),
        organizer_profile_key: Key::zero(),
        organizer_profile: None,
        program_id: k(100),
    };
    let mut b = binding();
    assert_eq!(
        grant_role(&config(), &ctx, &mut b, 3, k(61), 1, 1, 100, 0, k(70), 50),
        Err(TicketingError::Unauthorized)
    );
    assert_eq!(
        grant_role(&config(), &ctx, &mut b, 3, k(1), 1, 1, 100, 99, k(70), 50),
        Err(TicketingError::InvalidRoleGrantWindow)
    );
    assert_eq!(grant_role(&config(), &ctx, &mut b, 3, k(1), 1, 1, 100, 200, k(70), 50), Ok(()));
    assert!(b.active);
    assert!(b.subject.same(&k(60)));
    assert!(!role_is_active(&b, 1, 1, &k(5), &k(60), 99));
    assert!(role_is_active(&b, 1, 1, &k(5), &k(60), 100));
    assert!(!role_is_active(&b, 1, 1, &k(5), &k(60), 200));
    let (binding_key, _) = find_role_binding_address(&k(5), 1, &k(60), &k(100)).unwrap();
    let expected = Pubkey::find_program_address(
        &[b"role_binding".as_ref(), &[5u8; 32], &[1u8], &[60u8; 32]],
        &Pubkey::new_from_array([100u8; 32]),
    )
    .0;
    assert_eq!(binding_key.bytes, expected.to_bytes());
    assert_eq!(
        is_authorized_with_role(&k(60), &k(1), &k(5), 1, 1, &binding_key, &Some(b.clone()), &k(100), 150),
        Ok(true)
    );
    assert_eq!(
        is_authorized_with_role(&k(60), &k(1), &k(5), 1, 1, &k(77), &Some(b.clone()), &k(100), 150),
        Ok(false)
    );
    assert_eq!(revoke_role(&config(), &ctx, &mut b, k(61), 1, 1, k(70), 3, 160), Err(TicketingError::Unauthorized));
    assert_eq!(revoke_role(&config(), &ctx, &mut b, k(1), 1, 1, k(70), 3, 160), Ok(()));
    assert!(!b.active);
    assert!(!role_is_active(&b, 1, 1, &k(5), &k(60), 150));
    assert_eq!(
        is_authorized_with_role(&k(60), &k(1), &k(5), 1, 1, &binding_key, &Some(b.clone()), &k(100), 150),
        Ok(false)
    );
    assert_eq!(revoke_role(&config(), &ctx, &mut b, k(1), 1, 1, k(70), 3, 170), Err(TicketingError::RoleNotActive));
}

fn ledger() -> LoyaltyLedger {
    LoyaltyLedger {
        bump: 0,
        schema_version: 0,
        deprecated_layout_version: 0,
        replacement_account: Key::zero(),
        deprecated_at: 0,
        wallet: Key::zero(),
        total_accrued_points: 0,
        total_redeemed_points: 0,
        available_points: 0,
        last_event: Key::zero(),
        last_reason: 0,
        last_accrued_at: 0,
        last_redeemed_at: 0,
        created_at: 0,
        updated_at: 0,
    }
}

#[test]
fn loyalty_points_accrue_and_redeem_in_balance() {
    let mut cfg = config();
    assert_eq!(set_global_loyalty_multiplier(&mut cfg, 0, 1), Err(TicketingError::InvalidLoyaltyMultiplier));
    assert_eq!(set_global_loyalty_multiplier(&mut cfg, 15_000, 1), Ok(()));
    let mut ev = event();
    ev.loyalty_multiplier_bps = 20_000;
    let mut l = ledger();
    assert_eq!(accrue_points(&cfg, &ev, &ticket(), &mut l, k(13), 4, k(30), 1, 100, 0, 10), Ok(300));
    assert!(l.wallet.same(&k(30)));
    assert_eq!(l.total_accrued_points, 300);
    assert_eq!(l.available_points, 300);
    assert_eq!(accrue_points(&cfg, &ev, &ticket(), &mut l, k(13), 4, k(30), 3, 10, 7, 11), Ok(210));
    assert_eq!(l.available_points, 510);
    assert_eq!(
        accrue_points(&cfg, &ev, &ticket(), &mut l, k(13), 4, k(31), 1, 100, 0, 12),
        Err(TicketingError::Unauthorized)
    );
    assert_eq!(
        accrue_points(&cfg, &ev, &ticket(), &mut l, k(13), 4, k(30), 2, 100, 0, 12),
        Err(TicketingError::InvalidLoyaltyPoints)
    );
    assert_eq!(
        accrue_points(&cfg, &ev, &ticket(), &mut l, k(13), 4, k(30), 9, 100, 0, 12),
        Err(TicketingError::InvalidLoyaltyReason)
    );
    assert_eq!(
        redeem_points(&cfg, &mut l, 511, &String::from("PERK"), 13),
        Err(TicketingError::InsufficientLoyaltyPoints)
    );
    assert_eq!(redeem_points(&cfg, &mut l, 10, &String::new(), 13), Err(TicketingError::InvalidLoyaltyPerkCode));
    assert_eq!(redeem_points(&cfg, &mut l, 110, &String::from("PERK"), 13), Ok(()));
    assert_eq!(l.available_points, 400);
    assert_eq!(l.total_redeemed_points, 110);
    assert_eq!(l.available_points + l.total_redeemed_points, l.total_accrued_points);
}

fn signal() -> TrustSignal {
    TrustSignal {
        bump: 0,
        wallet: Key::zero(),
        schema_version: 0,
        total_tickets_purchased: 0,
        attendance_eligible_count: 0,
        attendance_attended_count: 0,
        abuse_flags: 0,
        abuse_incidents: 0,
        last_event: Key::zero(),
        last_ticket: Key::zero(),
        created_at: 0,
        updated_at: 0,
    }
}

#[test]
fn trust_signals_record_each_ticket_once() {
    let mut s = signal();
    let mut t = ticket();
    assert_eq!(record_purchase_input(&config(), &k(13), &k(15), &mut t, &mut s, 6, &k(30), 20), Ok(()));
    assert!(s.wallet.same(&k(30)));
    assert_eq!(s.schema_version, 1);
    assert_eq!(s.total_tickets_purchased, 1);
    assert!(s.last_ticket.same(&k(15)));
    assert!(t.purchase_trust_recorded);
    assert_eq!(
        record_purchase_input(&config(), &k(13), &k(15), &mut t, &mut s, 6, &k(30), 21),
        Err(TicketingError::TrustSignalAlreadyRecorded)
    );
    let mut t2 = ticket();
    assert_eq!(
        record_purchase_input(&config(), &k(13), &k(15), &mut t2, &mut s, 6, &k(30), 21),
        Err(TicketingError::TrustSignalAlreadyRecorded)
    );
    assert_eq!(record_attendance_input(&config(), &k(13), &k(15), &mut t, &mut s, 6, &k(30), true, 22), Ok(()));
    assert_eq!(s.attendance_eligible_count, 1);
    assert_eq!(s.attendance_attended_count, 1);
    assert_eq!(
        record_attendance_input(&config(), &k(13), &k(15), &mut t, &mut s, 6, &k(30), true, 23),
        Err(TicketingError::TrustSignalAlreadyRecorded)
    );
    assert_eq!(s.attendance_eligible_count, 1);
}

#[test]
fn abuse_flags_accumulate_and_count_new_bits_once() {
    assert_eq!(count_set_bits(0), 0);
    assert_eq!(count_set_bits(0b1011), 3);
    assert_eq!(count_set_bits(u32::MAX), 32);
    let mut s = signal();
    assert_eq!(flag_abuse(&mut s, 2, &k(30), 0, &k(13), &k(15), 5), Err(TicketingError::InvalidTrustFlagBits));
    assert_eq!(flag_abuse(&mut s, 2, &k(30), 0x1_0000, &k(13), &k(15), 5), Err(TicketingError::InvalidTrustFlagBits));
    assert_eq!(flag_abuse(&mut s, 2, &k(30), 0b0110, &k(13), &k(15), 5), Ok(()));
    assert_eq!(s.abuse_flags, 0b0110);
    assert_eq!(s.abuse_incidents, 2);
    assert_eq!(flag_abuse(&mut s, 2, &k(30), 0b0011, &k(13), &k(15), 6), Ok(()));
    assert_eq!(s.abuse_flags, 0b0111);
    assert_eq!(s.abuse_incidents, 3);
    assert_eq!(flag_abuse(&mut s, 2, &k(30), 0b0111, &k(13), &k(15), 7), Ok(()));
    assert_eq!(s.abuse_incidents, 3);
    assert_eq!(set_schema_version(&mut s, 1, 8), Err(TicketingError::InvalidTrustSchemaVersion));
    assert_eq!(set_schema_version(&mut s, 3, 8), Ok(1));
    assert_eq!(s.schema_version, 3);
}

fn registry() -> ComplianceRegistry {
    ComplianceRegistry {
        bump: 0,
        scope: 0,
        target: Key::zero(),
        allowlist: Vec::new(),
        denylist: Vec::new(),
        entity_denylist: Vec::new(),
        updated_at: 0,
    }
}

fn no_event_scope() -> EventScopeProof {
    EventScopeProof {
        organizer_profile_key: Key::zero(),
        organizer_profile: None,
        event_account_key: Key::zero(),
        event_account: None,
        program_id: k(100),
    }
}

#[test]
fn compliance_decisions() {
    let mut reg = registry();
    reg.denylist = vec![k(40)];
    reg.entity_denylist = vec![k(41)];
    reg.allowlist = vec![k(42)];
    let some = Some(reg);
    assert_eq!(evaluate_compliance(&some, 1, 1, &k(42), &k(50)), 1);
    assert_eq!(evaluate_compliance(&some, 2, 2, &k(42), &k(50)), 2);
    assert_eq!(evaluate_compliance(&some, 3, 4, &k(42), &k(50)), 3);
    assert_eq!(evaluate_compliance(&some, 2, 1, &k(42), &k(50)), 0);
    assert_eq!(evaluate_compliance(&some, 1, 0, &k(40), &k(50)), 4);
    assert_eq!(evaluate_compliance(&some, 1, 0, &k(43), &k(41)), 5);
    assert_eq!(evaluate_compliance(&some, 1, 8, &k(43), &k(50)), 6);
    assert_eq!(evaluate_compliance(&some, 1, 16, &k(43), &k(50)), 7);
    assert_eq!(evaluate_compliance(&some, 1, 24, &k(42), &k(50)), 0);
    assert_eq!(evaluate_compliance(&None, 1, 8, &k(40), &k(41)), 0);
}

#[test]
fn compliance_registry_entries() {
    let cfg = config();
    let mut reg = registry();
    let change = RegistryEntryChange { scope: 1, target: k(5), subject: k(40), list_type: 2, is_allowed: true };
    assert_eq!(
        upsert_registry_entry(&cfg, &k(5), &k(2), &no_event_scope(), &mut reg, 7, change, 10),
        Err(TicketingError::Unauthorized)
    );
    assert_eq!(
        upsert_registry_entry(&cfg, &k(5), &k(1), &no_event_scope(), &mut reg, 7, RegistryEntryChange { scope: 3, ..change }, 10),
        Err(TicketingError::InvalidComplianceScope)
    );
    assert_eq!(
        upsert_registry_entry(&cfg, &k(5), &k(1), &no_event_scope(), &mut reg, 7, RegistryEntryChange { list_type: 4, ..change }, 10),
        Err(TicketingError::InvalidComplianceListType)
    );
    assert_eq!(upsert_registry_entry(&cfg, &k(5), &k(1), &no_event_scope(), &mut reg, 7, change, 10), Ok(()));
    assert_eq!(reg.bump, 7);
    assert_eq!(reg.scope, 1);
    assert!(reg.target.same(&k(5)));
    assert_eq!(reg.denylist.len(), 1);
    assert_eq!(upsert_registry_entry(&cfg, &k(5), &k(1), &no_event_scope(), &mut reg, 7, change, 11), Ok(()));
    assert_eq!(reg.denylist.len(), 1);
    let second = RegistryEntryChange { subject: k(41), ..change };
    assert_eq!(upsert_registry_entry(&cfg, &k(5), &k(1), &no_event_scope(), &mut reg, 7, second, 12), Ok(()));
    assert_eq!(reg.denylist.len(), 2);
    let removal = RegistryEntryChange { is_allowed: false, ..change };
    assert_eq!(upsert_registry_entry(&cfg, &k(5), &k(1), &no_event_scope(), &mut reg, 7, removal, 13), Ok(()));
    assert_eq!(reg.denylist.len(), 1);
    assert!(reg.denylist[0].same(&k(41)));
    for i in 0..31u8 {
        let c = RegistryEntryChange { subject: k(100 + i), list_type: 1, ..change };
        assert_eq!(upsert_registry_entry(&cfg, &k(5), &k(1), &no_event_scope(), &mut reg, 7, c, 14), Ok(()));
    }
    let last = RegistryEntryChange { subject: k(200), list_type: 1, ..change };
    assert_eq!(upsert_registry_entry(&cfg, &k(5), &k(1), &no_event_scope(), &mut reg, 7, last, 15), Ok(()));
    assert_eq!(reg.allowlist.len(), 32);
    let over = RegistryEntryChange { subject: k(201), list_type: 1, ..change };
    assert_eq!(
        upsert_registry_entry(&cfg, &k(5), &k(1), &no_event_scope(), &mut reg, 7, over, 16),
        Err(TicketingError::ComplianceRegistryFull)
    );
}

#[test]
fn event_scope_registry_belongs_to_the_organizer() {
    let cfg = config();
    let program = k(100);
    let organizer_key = Key::new(
        Pubkey::find_program_address(&[b"organizer".as_ref(), &[10u8; 32]], &Pubkey::new_from_array([100u8; 32]))
            .0
            .to_bytes(),
    );
    let mut ev = event();
    ev.organizer = organizer_key;
    let (event_key, _) = find_event_address(&organizer_key, 7, &program).unwrap();
    let expected = Pubkey::find_program_address(
        &[b"event".as_ref(), &organizer_key.bytes, &7u64.to_le_bytes()],
        &Pubkey::new_from_array([100u8; 32]),
    )
    .0;
    assert_eq!(event_key.bytes, expected.to_bytes());
    let proof = EventScopeProof {
        organizer_profile_key: organizer_key,
        organizer_profile: Some(organizer()),
        event_account_key: event_key,
        event_account: Some(ev),
        program_id: program,
    };
    let mut reg = registry();
    let change = RegistryEntryChange { scope: 2, target: event_key, subject: k(40), list_type: 1, is_allowed: true };
    assert_eq!(upsert_registry_entry(&cfg, &k(5), &k(10), &proof, &mut reg, 3, change, 20), Ok(()));
    assert_eq!(reg.allowlist.len(), 1);
    let other = RegistryEntryChange { target: k(99), ..change };
    let mut reg2 = registry();
    assert_eq!(
        upsert_registry_entry(&cfg, &k(5), &k(10), &proof, &mut reg2, 3, other, 20),
        Err(TicketingError::Unauthorized)
    );
    assert_eq!(
        upsert_registry_entry(&cfg, &k(5), &k(11), &proof, &mut reg2, 3, change, 20),
        Err(TicketingError::Unauthorized)
    );
}

#[test]
fn event_restrictions_by_organizer_or_admin() {
    let mut ev = event();
    assert_eq!(set_event_restrictions(&config(), &organizer(), &mut ev, &k(99), 3, 5), Err(TicketingError::Unauthorized));
    assert_eq!(set_event_restrictions(&config(), &organizer(), &mut ev, &k(10), 3, 5), Ok(()));
    assert_eq!(ev.compliance_restriction_flags, 3);
    assert_eq!(set_event_restrictions(&config(), &organizer(), &mut ev, &k(1), 8, 6), Ok(()));
    assert_eq!(ev.compliance_restriction_flags, 8);
}

#[test]
fn little_endian_bytes() {
    assert_eq!(u64_le_bytes(0x0102_0304_0506_0708), vec![8, 7, 6, 5, 4, 3, 2, 1]);
}

#[test]
fn payload_strips_the_tag_only_when_present() {
    let tag = [1u8, 2, 3, 4, 5, 6, 7, 8];
    let tagged = [1u8, 2, 3, 4, 5, 6, 7, 8, 42, 43];
    assert_eq!(payload_without_discriminator(&tagged, &tag), vec![42, 43]);
    let untagged = [1u8, 2, 3, 4, 5, 6, 7, 9, 42];
    assert_eq!(payload_without_discriminator(&untagged, &tag), untagged.to_vec());
    let short = [1u8, 2, 3];
    assert_eq!(payload_without_discriminator(&short, &tag), short.to_vec());
}

#[test]
fn legacy_ledgers_are_upgraded() {
    let v0 = LoyaltyLedgerV0 {
        bump: 3,
        wallet: k(30),
        total_accrued_points: 50,
        total_redeemed_points: 20,
        available_points: 30,
        last_event: k(13),
        last_reason: 1,
        last_accrued_at: 9,
        last_redeemed_at: 10,
        created_at: 1,
        updated_at: 10,
    };
    let l = deserialize_loyalty_ledger_compat(None, Some(v0.clone())).unwrap();
    assert_eq!(l.schema_version, 0);
    assert_eq!(l.available_points, 30);
    assert!(l.wallet.same(&k(30)));
    assert!(l.replacement_account.is_zero());
    let mut current = ledger();
    current.schema_version = 1;
    current.available_points = 77;
    let l2 = deserialize_loyalty_ledger_compat(Some(current), Some(v0)).unwrap();
    assert_eq!(l2.available_points, 77);
    assert_eq!(l2.schema_version, 1);
    assert_eq!(
        deserialize_loyalty_ledger_compat(None, None).err(),
        Some(TicketingError::AccountSizeMismatch)
    );
}

#[test]
fn single_installment_advance_is_paid_whole() {
    let cfg = config();
    let ev = event();
    let keys = OfferKeys { event: k(13), organizer_profile: k(12) };
    let mut o = offer();
    let one = FinancingOfferInput { schedule_installments: 1, ..terms() };
    assert_eq!(create_financing_offer(&cfg, &k(10), &mut o, &keys, 9, k(60), one, 100), Ok(()));
    assert_eq!(accept_financing_offer(&cfg, &mut o, k(10), true, 150), Ok(()));
    assert_eq!(
        disburse_advance(&cfg, &ev, &mut o, k(70), 1, k(1), k(11), 999_999, [1; 16], 200).err(),
        Some(TicketingError::InvalidDisbursementAmount)
    );
    let record = disburse_advance(&cfg, &ev, &mut o, k(70), 1, k(1), k(11), 1_000_000, [1; 16], 200).unwrap();
    assert!(record.executed_by.same(&k(1)));
    assert_eq!(o.status, FinancingLifecycleStatus::Disbursed);
    assert_eq!(o.disbursed_at, 200);
    assert_eq!(
        disburse_advance(&cfg, &ev, &mut o, k(70), 2, k(1), k(11), 1, [2; 16], 300).err(),
        Some(TicketingError::FinancingOfferNotAccepted)
    );
    let mut rejected = offer();
    assert_eq!(create_financing_offer(&cfg, &k(10), &mut rejected, &keys, 9, k(60), terms(), 100), Ok(()));
    assert_eq!(accept_financing_offer(&cfg, &mut rejected, k(10), false, 150), Ok(()));
    assert_eq!(rejected.status, FinancingLifecycleStatus::Rejected);
    assert!(!rejected.terms_locked);
    assert_eq!(
        disburse_advance(&cfg, &ev, &mut rejected, k(70), 1, k(60), k(11), 1, [1; 16], 200).err(),
        Some(TicketingError::FinancingOfferNotAccepted)
    );
}

#[test]
fn rotating_a_role_moves_it_to_the_new_subject() {
    let mut old_binding = binding();
    old_binding.role = 3;
    old_binding.scope = 2;
    old_binding.active = true;
    old_binding.target = k(12);
    old_binding.subject = k(60);
    old_binding.granted_by = k(10);
    let mut new_binding = binding();
    assert_eq!(
        rotate_authority(&mut old_binding, &mut new_binding, 8, k(12), k(61), k(11), 3, 2, 0, 0, k(70), k(71), 70),
        Err(TicketingError::Unauthorized)
    );
    assert_eq!(
        rotate_authority(&mut old_binding, &mut new_binding, 8, k(13), k(61), k(10), 3, 2, 0, 0, k(70), k(71), 70),
        Err(TicketingError::Unauthorized)
    );
    assert_eq!(
        rotate_authority(&mut old_binding, &mut new_binding, 8, k(12), k(61), k(10), 4, 2, 0, 0, k(70), k(71), 70),
        Err(TicketingError::InvalidRole)
    );
    assert_eq!(
        rotate_authority(&mut old_binding, &mut new_binding, 8, k(12), k(61), k(10), 3, 2, 50, 40, k(70), k(71), 70),
        Err(TicketingError::InvalidRoleGrantWindow)
    );
    assert_eq!(
        rotate_authority(&mut old_binding, &mut new_binding, 8, k(12), k(61), k(10), 3, 2, 0, 0, k(70), k(71), 70),
        Ok(())
    );
    assert!(!old_binding.active);
    assert_eq!(old_binding.revoked_at, 70);
    assert!(new_binding.active);
    assert!(new_binding.subject.same(&k(61)));
    assert!(new_binding.granted_by.same(&k(10)));
    assert_eq!(new_binding.bump, 8);
    let audit = hashv(&[&[70u8; 32][..], &[71u8; 32][..], &70i64.to_le_bytes(), &2u16.to_le_bytes()]);
    let correlation =
        hashv(&[&[12u8; 32][..], &[61u8; 32][..], &70i64.to_le_bytes(), &3u16.to_le_bytes()]);
    assert_eq!(new_binding.last_audit_reference[..], audit.to_bytes()[..16]);
    assert_eq!(new_binding.last_correlation_id[..], correlation.to_bytes()[..16]);
    assert_eq!(old_binding.last_audit_reference, new_binding.last_audit_reference);
    assert_eq!(old_binding.last_correlation_id, new_binding.last_correlation_id);
    assert_eq!(
        rotate_authority(&mut old_binding, &mut new_binding, 8, k(12), k(62), k(10), 3, 2, 0, 0, k(70), k(71), 71),
        Err(TicketingError::RoleNotActive)
    );
}

#[test]
fn organizers_grant_roles_over_their_own_profile() {
    let (profile_key, _) = find_organizer_profile_address(&k(10), &k(100)).unwrap();
    let expected = Pubkey::find_program_address(
        &[b"organizer".as_ref(), &[10u8; 32]],
        &Pubkey::new_from_array([100u8; 32]),
    )
    .0;
    assert_eq!(profile_key.bytes, expected.to_bytes());
    assert_eq!(
        is_organizer_authorized(&k(10), &k(1), &profile_key, &profile_key, &Some(organizer()), &k(100)),
        Ok(true)
    );
    assert_eq!(
        is_organizer_authorized(&k(10), &k(1), &k(77), &profile_key, &Some(organizer()), &k(100)),
        Ok(false)
    );
    assert_eq!(is_organizer_authorized(&k(1), &k(1), &k(77), &k(77), &None, &k(100)), Ok(true));
    let ctx = RoleContext {
        protocol_config_key: k(5),
        target: profile_key,
        subject: k(63),
        organizer_profile_key: profile_key,
        organizer_profile: Some(organizer()),
        program_id: k(100),
    };
    let mut b = binding();
    assert_eq!(grant_role(&config(), &ctx, &mut b, 2, k(10), 4, 2, 0, 0, k(70), 80), Ok(()));
    assert!(b.target.same(&profile_key));
    assert_eq!(b.role, 4);
    assert_eq!(
        grant_role(&config(), &ctx, &mut b, 2, k(11), 4, 2, 0, 0, k(70), 80),
        Err(TicketingError::Unauthorized)
    );
    assert_eq!(revoke_role(&config(), &ctx, &mut b, k(10), 4, 2, k(70), 3, 90), Ok(()));
    assert!(!b.active);
}

#[test]
fn delegates_withdraw_with_an_active_admin_role() {
    let mut v = vault_state();
    v.kind = 2;
    v.parent = k(12);
    v.vault = k(90);
    v.controller = k(12);
    v.authority = k(10);
    v.last_recorded_balance_lamports = 1_000;
    let (binding_key, _) = find_role_binding_address(&k(12), 2, &k(64), &k(100)).unwrap();
    let mut b = binding();
    b.role = 2;
    b.scope = 2;
    b.active = true;
    b.target = k(12);
    b.subject = k(64);
    let proof = RoleBindingProof { key: binding_key, binding: Some(b.clone()), program_id: k(100) };
    assert_eq!(is_withdraw_authorized(&k(64), &v, &proof, 5), Ok(true));
    assert_eq!(is_withdraw_authorized(&k(65), &v, &proof, 5), Ok(false));
    assert_eq!(withdraw_vault(&mut v, &proof, k(90), 2, k(12), k(64), 300, 1_000, 6), Ok(()));
    assert_eq!(v.total_outflow_lamports, 300);
    b.active = false;
    let revoked = RoleBindingProof { key: binding_key, binding: Some(b), program_id: k(100) };
    assert_eq!(
        withdraw_vault(&mut v, &revoked, k(90), 2, k(12), k(64), 100, 700, 7),
        Err(TicketingError::Unauthorized)
    );
    let mut odd = vault_state();
    odd.kind = 9;
    assert_eq!(is_withdraw_authorized(&k(64), &odd, &proof, 5), Err(TicketingError::InvalidVaultKind));
}

#[test]
fn correlation_ids_are_the_leading_bytes_of_the_digest() {
    let id = derive_correlation_id(&k(1), &k(2), -5, 0x2003);
    let digest = hashv(&[&[1u8; 32][..], &[2u8; 32][..], &(-5i64).to_le_bytes(), &0x2003u16.to_le_bytes()]);
    assert_eq!(id[..], digest.to_bytes()[..16]);
    assert_ne!(id, derive_correlation_id(&k(1), &k(2), -5, 0x2004));
    assert_ne!(id, derive_correlation_id(&k(2), &k(1), -5, 0x2003));
}

#[test]
fn revoking_records_audit_identifiers_of_the_binding_and_the_revoker() {
    let mut b = binding();
    b.role = 1;
    b.scope = 1;
    b.active = true;
    b.target = k(100);
    b.subject = k(60);
    let ctx = RoleContext {
        protocol_config_key: k(100),
        target: k(100),
        subject: k(60),
        organizer_profile_key: k(0),
        organizer_profile: None,
        program_id: k(99),
    };
    assert_eq!(revoke_role(&config(), &ctx, &mut b, k(1), 1, 1, k(70), 9, 160), Ok(()));
    assert_eq!(b.last_audit_reference, derive_correlation_id(&k(70), &k(1), 160, 9));
    assert_eq!(b.last_correlation_id, derive_correlation_id(&k(100), &k(60), 160, 1));
}
