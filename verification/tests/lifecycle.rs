use ticketing_core::checkin::{check_in_ticket, set_checkin_policy, ScannerProof};
use ticketing_core::disputes::{flag_dispute, refund_ticket, RefundSource, RefundVaults};
use ticketing_core::error::TicketingError;
use ticketing_core::event::{
    cancel_event, close_event, create_event, freeze_event, pause_event, update_event,
    validate_event_input, EventInput,
};
use ticketing_core::governance::{
    accept_upgrade_authority_handoff, begin_upgrade_authority_handoff, emergency_rotate_admin,
    enforce_privileged_signoff, execute_protocol_config_change, has_signed,
    queue_protocol_config_change, set_multisig_config, set_timelock_delay, MultisigSettings,
    RemainingAccount,
};
use ticketing_core::key::Key;
use ticketing_core::organizer::{
    create_organizer, set_organizer_compliance_flags, set_organizer_operator,
    set_organizer_status, update_organizer,
};
use ticketing_core::primary_sale::{buy_ticket, fee_share, issue_comp_ticket, PurchaseKeys};
use ticketing_core::protocol::{
    initialize_protocol, pause_protocol, register_protocol_vaults, set_protocol_authorities,
    set_protocol_config, ProtocolSetup,
};
use ticketing_core::state::{
    EventAccount, EventStatus, OrganizerOperator, OrganizerProfile, OrganizerStatus,
    ProtocolConfig, Ticket, TicketClass, TicketStatus, WalletPurchaseCounter,
};
use ticketing_core::ticket_class::{
    create_ticket_class, reserve_inventory, update_ticket_class, TicketClassInput,
};
use ticketing_core::ticket_state::{set_ticket_metadata, transition_ticket_status};

fn k(b: u8) -> Key {
    Key::new([b; 32])
}

fn config() -> ProtocolConfig {
    ProtocolConfig {
        bump: 255,
        admin: k(1),
        upgrade_authority: k(2),
        pending_upgrade_authority: Key::zero(),
        upgrade_handoff_started_at: 0,
        upgrade_handoff_eta: 0,
        timelock_delay_secs: 0,
        pending_protocol_fee_bps: 0,
        pending_max_tickets_per_wallet: 0,
        config_change_eta: 0,
        multisig_enabled: false,
        multisig_threshold: 0,
        multisig_signer_1: Key::zero(),
        multisig_signer_2: Key::zero(),
        multisig_signer_3: Key::zero(),
        emergency_admin: k(9),
        emergency_action_nonce: 0,
        treasury_vault: k(3),
        fee_vault: k(4),
        protocol_fee_bps: 250,
        loyalty_multiplier_bps: 10_000,
        max_tickets_per_wallet: 10,
        is_paused: false,
        created_at: 1,
        updated_at: 1,
    }
}

fn organizer() -> OrganizerProfile {
    OrganizerProfile {
        bump: 254,
        authority: k(10),
        payout_wallet: k(11),
        status: OrganizerStatus::Active,
        compliance_flags: 0,
        metadata_uri: String::from("ipfs://org"),
        created_at: 1,
        updated_at: 1,
    }
}

fn event() -> EventAccount {
    EventAccount {
        bump: 253,
        schema_version: 1,
        deprecated_layout_version: 0,
        replacement_account: Key::zero(),
        deprecated_at: 0,
        organizer: k(12),
        event_id: 7,
        title: String::from("Show"),
        venue: String::from("Hall"),
        start_ts: 10_000,
        end_ts: 20_000,
        sales_start_ts: 1_000,
        lock_ts: 5_000,
        capacity: 100,
        loyalty_multiplier_bps: 10_000,
        compliance_restriction_flags: 0,
        is_paused: false,
        status: EventStatus::Draft,
        created_at: 1,
        updated_at: 1,
    }
}

fn class() -> TicketClass {
    TicketClass {
        bump: 252,
        event: k(13),
        class_id: 1,
        name: String::from("GA"),
        total_supply: 100,
        reserved_supply: 10,
        sold_supply: 0,
        refunded_supply: 0,
        remaining_supply: 90,
        face_price_lamports: 1_000_000,
        sale_start_ts: 1_000,
        sale_end_ts: 9_000,
        per_wallet_limit: 2,
        is_transferable: true,
        is_resale_enabled: true,
        allow_reentry: false,
        max_reentries: 0,
        stakeholder_wallet: k(20),
        stakeholder_bps: 500,
        created_at: 1,
        updated_at: 1,
    }
}

fn ticket() -> Ticket {
    Ticket {
        bump: 251,
        schema_version: 1,
        deprecated_layout_version: 0,
        replacement_account: Key::zero(),
        deprecated_at: 0,
        event: k(13),
        ticket_class: k(14),
        owner: k(30),
        buyer: k(30),
        ticket_id: 1,
        status: TicketStatus::Active,
        paid_amount_lamports: 1_000_000,
        is_comp: false,
        created_at: 2_000,
        status_updated_at: 2_000,
        checked_in_at: 0,
        last_check_in_at: 0,
        check_in_count: 0,
        last_check_in_gate_id: String::new(),
        refunded_at: 0,
        refund_source: 0,
        refund_amount_lamports: 0,
        invalidated_at: 0,
        is_disputed: false,
        is_chargeback: false,
        disputed_at: 0,
        dispute_reason_code: 0,
        dispute_updated_at: 0,
        metadata_uri: String::new(),
        metadata_version: 0,
        metadata_updated_at: 0,
        transfer_count: 0,
        last_transfer_at: 0,
        compliance_decision_code: 0,
        compliance_checked_at: 0,
        purchase_trust_recorded: false,
        attendance_trust_recorded: false,
    }
}

fn event_input() -> EventInput {
    EventInput {
        title: String::from("New show"),
        venue: String::from("Arena"),
        start_ts: 30_000,
        end_ts: 40_000,
        sales_start_ts: 2_000,
        lock_ts: 6_000,
        capacity: 500,
    }
}

fn class_input() -> TicketClassInput {
    TicketClassInput {
        name: String::from("VIP"),
        total_supply: 50,
        reserved_supply: 5,
        face_price_lamports: 2_000_000,
        sale_start_ts: 3_000,
        sale_end_ts: 8_000,
        per_wallet_limit: 3,
        is_transferable: false,
        is_resale_enabled: false,
        stakeholder_wallet: k(21),
        stakeholder_bps: 100,
    }
}

fn setup() -> ProtocolSetup {
    ProtocolSetup {
        admin: k(1),
        upgrade_authority: k(2),
        treasury_vault: k(3),
        fee_vault: k(4),
        protocol_fee_bps: 300,
        max_tickets_per_wallet: 8,
    }
}

fn no_accounts() -> Vec<RemainingAccount> {
    Vec::new()
}

#[test]
fn initialize_protocol_sets_everything() {
    let mut cfg = config();
    cfg.is_paused = true;
    cfg.timelock_delay_secs = 99;
    assert_eq!(initialize_protocol(&mut cfg, 200, setup(), 50), Ok(()));
    assert_eq!(cfg.bump, 200);
    assert!(cfg.admin.same(&k(1)));
    assert!(cfg.emergency_admin.same(&k(1)));
    assert_eq!(cfg.protocol_fee_bps, 300);
    assert_eq!(cfg.pending_protocol_fee_bps, 300);
    assert_eq!(cfg.max_tickets_per_wallet, 8);
    assert_eq!(cfg.loyalty_multiplier_bps, 10_000);
    assert_eq!(cfg.timelock_delay_secs, 0);
    assert!(!cfg.is_paused);
    assert!(!cfg.multisig_enabled);
    assert!(cfg.pending_upgrade_authority.is_zero());
    assert_eq!(cfg.created_at, 50);
}

#[test]
fn initialize_protocol_refusals() {
    let mut cfg = config();
    let mut s = setup();
    s.admin = Key::zero();
    assert_eq!(initialize_protocol(&mut cfg, 1, s, 5), Err(TicketingError::InvalidAuthority));
    let mut s = setup();
    s.upgrade_authority = Key::zero();
    assert_eq!(initialize_protocol(&mut cfg, 1, s, 5), Err(TicketingError::InvalidAuthority));
    let mut s = setup();
    s.protocol_fee_bps = 1_001;
    assert_eq!(initialize_protocol(&mut cfg, 1, s, 5), Err(TicketingError::InvalidFeeBps));
    let mut s = setup();
    s.max_tickets_per_wallet = 0;
    assert_eq!(
        initialize_protocol(&mut cfg, 1, s, 5),
        Err(TicketingError::InvalidMaxTicketsPerWallet)
    );
    let mut s = setup();
    s.max_tickets_per_wallet = 101;
    assert_eq!(
        initialize_protocol(&mut cfg, 1, s, 5),
        Err(TicketingError::InvalidMaxTicketsPerWallet)
    );
    assert_eq!(cfg.protocol_fee_bps, 250);
}

#[test]
fn protocol_settings_authorities_vaults_and_pause() {
    let mut cfg = config();
    assert_eq!(set_protocol_config(&mut cfg, 1_000, 100, 9), Ok(()));
    assert_eq!(cfg.protocol_fee_bps, 1_000);
    assert_eq!(cfg.max_tickets_per_wallet, 100);
    assert_eq!(set_protocol_config(&mut cfg, 1_001, 100, 9), Err(TicketingError::InvalidFeeBps));
    assert_eq!(
        set_protocol_authorities(&mut cfg, &Key::zero(), &k(5), 10),
        Err(TicketingError::InvalidAuthority)
    );
    let old = set_protocol_authorities(&mut cfg, &k(6), &k(7), 10).unwrap();
    assert!(old.same(&k(1)));
    assert!(cfg.admin.same(&k(6)));
    assert!(cfg.upgrade_authority.same(&k(7)));
    register_protocol_vaults(&mut cfg, &k(40), &k(41), 11);
    assert!(cfg.treasury_vault.same(&k(40)));
    assert!(cfg.fee_vault.same(&k(41)));
    pause_protocol(&mut cfg, true, 12);
    assert!(cfg.is_paused);
    assert_eq!(cfg.updated_at, 12);
}

#[test]
fn signoff_without_multisig_needs_only_the_admin() {
    let cfg = config();
    assert_eq!(enforce_privileged_signoff(&cfg, &k(1), &no_accounts()), Ok(()));
    assert_eq!(
        enforce_privileged_signoff(&cfg, &k(2), &no_accounts()),
        Err(TicketingError::Unauthorized)
    );
}

#[test]
fn signoff_with_multisig_counts_approvals() {
    let mut cfg = config();
    cfg.multisig_enabled = true;
    cfg.multisig_threshold = 2;
    cfg.multisig_signer_1 = k(1);
    cfg.multisig_signer_2 = k(50);
    cfg.multisig_signer_3 = k(51);
    // The admin counts as one approval; one more signer is needed.
    assert_eq!(
        enforce_privileged_signoff(&cfg, &k(1), &no_accounts()),
        Err(TicketingError::MultisigSignoffMissing)
    );
    let unsigned = vec![RemainingAccount { key: k(50), is_signer: false }];
    assert_eq!(
        enforce_privileged_signoff(&cfg, &k(1), &unsigned),
        Err(TicketingError::MultisigSignoffMissing)
    );
    let signed = vec![RemainingAccount { key: k(60), is_signer: true }, RemainingAccount {
        key: k(51),
        is_signer: true,
    }];
    assert!(has_signed(&signed, &k(51)));
    assert!(!has_signed(&signed, &k(50)));
    assert_eq!(enforce_privileged_signoff(&cfg, &k(1), &signed), Ok(()));
    cfg.multisig_threshold = 4;
    assert_eq!(
        enforce_privileged_signoff(&cfg, &k(1), &signed),
        Err(TicketingError::InvalidMultisigConfig)
    );
    cfg.multisig_threshold = 3;
    cfg.multisig_signer_3 = Key::zero();
    assert_eq!(
        enforce_privileged_signoff(&cfg, &k(1), &signed),
        Err(TicketingError::InvalidMultisigConfig)
    );
}

#[test]
fn multisig_config_validation() {
    let mut cfg = config();
    let settings = MultisigSettings {
        enabled: true,
        threshold: 2,
        signer_1: k(50),
        signer_2: Key::zero(),
        signer_3: Key::zero(),
    };
    assert_eq!(
        set_multisig_config(&mut cfg, &k(1), &no_accounts(), settings, 5),
        Err(TicketingError::InvalidMultisigConfig)
    );
    let settings = MultisigSettings { threshold: 0, ..settings };
    assert_eq!(
        set_multisig_config(&mut cfg, &k(1), &no_accounts(), settings, 5),
        Err(TicketingError::InvalidMultisigConfig)
    );
    let settings = MultisigSettings { threshold: 1, ..settings };
    assert_eq!(set_multisig_config(&mut cfg, &k(1), &no_accounts(), settings, 5), Ok(()));
    assert!(cfg.multisig_enabled);
    assert_eq!(cfg.multisig_threshold, 1);
    let off = MultisigSettings { enabled: false, threshold: 3, ..settings };
    // Multisig is now on: the configured key must sign as well.
    assert_eq!(
        set_multisig_config(&mut cfg, &k(1), &no_accounts(), off, 6),
        Err(TicketingError::MultisigSignoffMissing)
    );
    let cosigned = vec![RemainingAccount { key: k(50), is_signer: true }];
    assert_eq!(set_multisig_config(&mut cfg, &k(1), &cosigned, off, 6), Ok(()));
    assert!(!cfg.multisig_enabled);
    assert_eq!(cfg.multisig_threshold, 0);
}

#[test]
fn config_change_waits_for_the_timelock() {
    let mut cfg = config();
    assert_eq!(set_timelock_delay(&mut cfg, &k(1), &no_accounts(), -1, 5), Err(TicketingError::InvalidAuthority));
    assert_eq!(set_timelock_delay(&mut cfg, &k(1), &no_accounts(), 100, 5), Ok(()));
    assert_eq!(
        execute_protocol_config_change(&mut cfg, &k(1), &no_accounts(), 10),
        Err(TicketingError::NoPendingConfigChange)
    );
    assert_eq!(
        queue_protocol_config_change(&mut cfg, &k(1), &no_accounts(), 2_000, 5, 1_000),
        Err(TicketingError::InvalidFeeBps)
    );
    assert_eq!(queue_protocol_config_change(&mut cfg, &k(1), &no_accounts(), 400, 5, 1_000), Ok(()));
    assert_eq!(cfg.config_change_eta, 1_100);
    assert_eq!(cfg.protocol_fee_bps, 250);
    assert_eq!(
        execute_protocol_config_change(&mut cfg, &k(1), &no_accounts(), 1_099),
        Err(TicketingError::TimelockNotReady)
    );
    assert_eq!(execute_protocol_config_change(&mut cfg, &k(1), &no_accounts(), 1_100), Ok(()));
    assert_eq!(cfg.protocol_fee_bps, 400);
    assert_eq!(cfg.max_tickets_per_wallet, 5);
    assert_eq!(cfg.config_change_eta, 0);
    assert_eq!(
        execute_protocol_config_change(&mut cfg, &k(1), &no_accounts(), 2_000),
        Err(TicketingError::NoPendingConfigChange)
    );
    cfg.timelock_delay_secs = i64::MAX;
    assert_eq!(
        queue_protocol_config_change(&mut cfg, &k(1), &no_accounts(), 400, 5, 1),
        Err(TicketingError::MathOverflow)
    );
}

#[test]
fn upgrade_handoff_waits_and_goes_to_the_named_key() {
    let mut cfg = config();
    cfg.timelock_delay_secs = 60;
    assert_eq!(
        accept_upgrade_authority_handoff(&mut cfg, &k(70), 10),
        Err(TicketingError::NoUpgradeHandoffInProgress)
    );
    assert_eq!(
        begin_upgrade_authority_handoff(&mut cfg, &k(1), &no_accounts(), &Key::zero(), 10),
        Err(TicketingError::InvalidAuthority)
    );
    assert_eq!(begin_upgrade_authority_handoff(&mut cfg, &k(1), &no_accounts(), &k(70), 10), Ok(()));
    assert_eq!(cfg.upgrade_handoff_eta, 70);
    assert_eq!(
        accept_upgrade_authority_handoff(&mut cfg, &k(71), 100),
        Err(TicketingError::InvalidPendingUpgradeAuthority)
    );
    assert_eq!(
        accept_upgrade_authority_handoff(&mut cfg, &k(70), 69),
        Err(TicketingError::UpgradeHandoffNotReady)
    );
    let previous = accept_upgrade_authority_handoff(&mut cfg, &k(70), 70).unwrap();
    assert!(previous.same(&k(2)));
    assert!(cfg.upgrade_authority.same(&k(70)));
    assert!(cfg.pending_upgrade_authority.is_zero());
    assert_eq!(cfg.upgrade_handoff_eta, 0);
}

#[test]
fn emergency_rotation_needs_a_paused_protocol() {
    let mut cfg = config();
    assert_eq!(
        emergency_rotate_admin(&mut cfg, &k(80), &k(81), 5),
        Err(TicketingError::EmergencyRequiresPausedProtocol)
    );
    assert_eq!(
        emergency_rotate_admin(&mut cfg, &Key::zero(), &k(81), 5),
        Err(TicketingError::InvalidAuthority)
    );
    cfg.is_paused = true;
    let old = emergency_rotate_admin(&mut cfg, &k(80), &k(81), 5).unwrap();
    assert!(old.same(&k(1)));
    assert!(cfg.admin.same(&k(80)));
    assert!(cfg.emergency_admin.same(&k(81)));
    assert_eq!(cfg.emergency_action_nonce, 1);
    cfg.emergency_action_nonce = u64::MAX;
    assert_eq!(emergency_rotate_admin(&mut cfg, &k(82), &k(83), 6), Err(TicketingError::MathOverflow));
}

#[test]
fn organizer_registration_and_updates() {
    let cfg = config();
    let mut profile = organizer();
    let long_uri = "x".repeat(201);
    assert_eq!(
        create_organizer(&cfg, &mut profile, 9, &k(15), long_uri.clone(), &k(16), 3),
        Err(TicketingError::InvalidMetadataUriLength)
    );
    let mut paused = config();
    paused.is_paused = true;
    assert_eq!(
        create_organizer(&paused, &mut profile, 9, &k(15), String::from("u"), &k(16), 3),
        Err(TicketingError::ProtocolPaused)
    );
    assert_eq!(create_organizer(&cfg, &mut profile, 9, &k(15), String::from("u"), &k(16), 3), Ok(()));
    assert!(profile.authority.same(&k(15)));
    assert_eq!(profile.status, OrganizerStatus::Active);
    assert_eq!(profile.metadata_uri, "u");
    assert_eq!(
        update_organizer(&mut profile, long_uri, &k(17), 4),
        Err(TicketingError::InvalidMetadataUriLength)
    );
    assert_eq!(update_organizer(&mut profile, String::from("v"), &k(17), 4), Ok(()));
    assert!(profile.payout_wallet.same(&k(17)));
    assert_eq!(set_organizer_status(&mut profile, 2, 5), Ok(()));
    assert_eq!(profile.status, OrganizerStatus::Suspended);
    assert_eq!(set_organizer_status(&mut profile, 3, 5), Err(TicketingError::InvalidOrganizerStatus));
    set_organizer_compliance_flags(&mut profile, 0b101, 6);
    assert_eq!(profile.compliance_flags, 0b101);
    let mut op = OrganizerOperator {
        bump: 0,
        organizer: Key::zero(),
        operator: Key::zero(),
        permissions: 0,
        active: false,
        updated_at: 0,
    };
    set_organizer_operator(&mut op, 3, &k(12), &k(90), 1, true, 7);
    assert!(op.active);
    assert!(op.operator.same(&k(90)));
    assert_eq!(op.permissions, 1);
}

#[test]
fn event_input_validation() {
    assert_eq!(validate_event_input(&event_input()), Ok(()));
    let bad = EventInput { title: "t".repeat(65), ..event_input() };
    assert_eq!(validate_event_input(&bad), Err(TicketingError::InvalidEventTitleLength));
    let bad = EventInput { venue: "v".repeat(129), ..event_input() };
    assert_eq!(validate_event_input(&bad), Err(TicketingError::InvalidEventVenueLength));
    let bad = EventInput { capacity: 0, ..event_input() };
    assert_eq!(validate_event_input(&bad), Err(TicketingError::InvalidEventCapacity));
    let bad = EventInput { end_ts: 30_000, ..event_input() };
    assert_eq!(validate_event_input(&bad), Err(TicketingError::InvalidEventTimeWindow));
    let bad = EventInput { lock_ts: 30_001, ..event_input() };
    assert_eq!(validate_event_input(&bad), Err(TicketingError::InvalidEventTimeWindow));
}

#[test]
fn create_event_in_draft() {
    let cfg = config();
    let mut ev = event();
    ev.status = EventStatus::Closed;
    assert_eq!(create_event(&cfg, &organizer(), &k(12), &mut ev, 5, 42, event_input(), 100), Ok(()));
    assert_eq!(ev.status, EventStatus::Draft);
    assert_eq!(ev.event_id, 42);
    assert_eq!(ev.title, "New show");
    assert_eq!(ev.capacity, 500);
    assert_eq!(ev.loyalty_multiplier_bps, 10_000);
    assert_eq!(ev.created_at, 100);
    let mut suspended = organizer();
    suspended.status = OrganizerStatus::Suspended;
    assert_eq!(
        create_event(&cfg, &suspended, &k(12), &mut ev, 5, 43, event_input(), 100),
        Err(TicketingError::OrganizerSuspended)
    );
    assert_eq!(ev.event_id, 42);
}

#[test]
fn event_lifecycle() {
    let mut ev = event();
    assert_eq!(update_event(&mut ev, event_input(), 5_000), Err(TicketingError::EventUpdateLocked));
    assert_eq!(update_event(&mut ev, event_input(), 4_999), Ok(()));
    assert_eq!(ev.venue, "Arena");
    assert_eq!(freeze_event(&mut ev, 2_000), Err(TicketingError::SalesAlreadyStarted));
    assert_eq!(freeze_event(&mut ev, 1_999), Ok(()));
    assert_eq!(ev.status, EventStatus::Frozen);
    assert_eq!(freeze_event(&mut ev, 1_999), Err(TicketingError::InvalidEventStatusTransition));
    assert_eq!(
        update_event(&mut ev, event_input(), 10),
        Err(TicketingError::InvalidEventStatusTransition)
    );
    assert_eq!(close_event(&mut ev, 39_999), Err(TicketingError::InvalidEventStatusTransition));
    assert_eq!(cancel_event(&mut ev, 3_000), Ok(()));
    assert_eq!(ev.status, EventStatus::Cancelled);
    assert_eq!(cancel_event(&mut ev, 3_000), Err(TicketingError::InvalidEventStatusTransition));
    assert_eq!(close_event(&mut ev, 3_001), Ok(()));
    assert_eq!(ev.status, EventStatus::Closed);
}

#[test]
fn ended_events_never_reopen() {
    let mut ev = event();
    ev.status = EventStatus::Closed;
    assert_eq!(freeze_event(&mut ev, 0), Err(TicketingError::InvalidEventStatusTransition));
    assert_eq!(cancel_event(&mut ev, 0), Err(TicketingError::InvalidEventStatusTransition));
    assert_eq!(update_event(&mut ev, event_input(), 0), Err(TicketingError::InvalidEventStatusTransition));
    assert_eq!(ev.status, EventStatus::Closed);
}

#[test]
fn pause_event_only_for_its_organizer() {
    let mut ev = event();
    assert_eq!(pause_event(&mut ev, &k(99), true, 5), Err(TicketingError::Unauthorized));
    assert!(!ev.is_paused);
    assert_eq!(pause_event(&mut ev, &k(12), true, 5), Ok(()));
    assert!(ev.is_paused);
    assert_eq!(ev.status, EventStatus::Draft);
}

#[test]
fn ticket_class_creation_is_balanced() {
    let mut c = class();
    assert_eq!(create_ticket_class(&config(), &event(), &k(13), &mut c, 8, 2, class_input(), 77), Ok(()));
    assert_eq!(c.class_id, 2);
    assert_eq!(c.total_supply, 50);
    assert_eq!(c.reserved_supply, 5);
    assert_eq!(c.remaining_supply, 45);
    assert_eq!(c.sold_supply, 0);
    assert_eq!(c.reserved_supply + c.sold_supply + c.remaining_supply, c.total_supply);
    assert!(!c.allow_reentry);
    let bad = TicketClassInput { reserved_supply: 51, ..class_input() };
    assert_eq!(
        create_ticket_class(&config(), &event(), &k(13), &mut c, 8, 2, bad, 77),
        Err(TicketingError::InvalidTicketClassSupply)
    );
}

#[test]
fn ticket_class_input_refusals() {
    let cfg = config();
    let ev = event();
    let mut c = class();
    let cases = vec![
        (TicketClassInput { name: String::new(), ..class_input() }, TicketingError::InvalidTicketClassNameLength),
        (TicketClassInput { name: "n".repeat(33), ..class_input() }, TicketingError::InvalidTicketClassNameLength),
        (TicketClassInput { total_supply: 0, reserved_supply: 0, ..class_input() }, TicketingError::InvalidTicketClassSupply),
        (TicketClassInput { sale_end_ts: 3_000, ..class_input() }, TicketingError::InvalidTicketClassSaleWindow),
        (TicketClassInput { per_wallet_limit: 0, ..class_input() }, TicketingError::InvalidTicketClassPurchaseLimit),
        (TicketClassInput { stakeholder_bps: 10_001, ..class_input() }, TicketingError::InvalidFeeBps),
    ];
    for (input, expected) in cases {
        assert_eq!(create_ticket_class(&cfg, &ev, &k(13), &mut c, 1, 1, input, 5), Err(expected));
    }
    let mut cancelled = event();
    cancelled.status = EventStatus::Cancelled;
    assert_eq!(
        create_ticket_class(&cfg, &cancelled, &k(13), &mut c, 1, 1, class_input(), 5),
        Err(TicketingError::InvalidEventStatusTransition)
    );
    assert_eq!(c.name, "GA");
}

#[test]
fn ticket_class_update_keeps_sold_tickets() {
    let mut c = class();
    c.sold_supply = 10;
    c.remaining_supply = 80;
    assert_eq!(update_ticket_class(&event(), &mut c, class_input(), 1_000), Err(TicketingError::SalesAlreadyStarted));
    assert_eq!(update_ticket_class(&event(), &mut c, class_input(), 999), Ok(()));
    assert_eq!(c.total_supply, 50);
    assert_eq!(c.sold_supply, 10);
    assert_eq!(c.remaining_supply, 35);
    assert_eq!(c.name, "VIP");
    let mut c2 = class();
    c2.sold_supply = 48;
    let input = TicketClassInput { reserved_supply: 5, ..class_input() };
    assert_eq!(update_ticket_class(&event(), &mut c2, input, 0), Err(TicketingError::InvalidTicketClassSupply));
}

#[test]
fn reserve_inventory_moves_tickets_off_sale() {
    let mut c = class();
    assert_eq!(reserve_inventory(&event(), &mut c, 0, 5), Err(TicketingError::InvalidReserveAmount));
    assert_eq!(reserve_inventory(&event(), &mut c, 91, 5), Err(TicketingError::InsufficientRemainingSupply));
    assert_eq!(reserve_inventory(&event(), &mut c, 15, 5), Ok(()));
    assert_eq!(c.reserved_supply, 25);
    assert_eq!(c.remaining_supply, 75);
    assert_eq!(c.reserved_supply + c.sold_supply + c.remaining_supply, c.total_supply);
    c.reserved_supply = u32::MAX;
    assert_eq!(reserve_inventory(&event(), &mut c, 1, 5), Err(TicketingError::MathOverflow));
}

#[test]
fn fee_share_rounds_down() {
    assert_eq!(fee_share(1_000_000, 250), 25_000);
    assert_eq!(fee_share(999, 1), 0);
    assert_eq!(fee_share(19_999, 5), 9);
}

fn purchase_keys() -> PurchaseKeys {
    PurchaseKeys { event: k(13), ticket_class: k(14), buyer: k(30), stakeholder_wallet: k(20) }
}

fn empty_counter() -> WalletPurchaseCounter {
    WalletPurchaseCounter {
        bump: 0,
        event: Key::zero(),
        ticket_class: Key::zero(),
        wallet: Key::zero(),
        purchased_count: 0,
        updated_at: 0,
    }
}

#[test]
fn buy_ticket_splits_the_price() {
    let mut c = class();
    let mut counter = empty_counter();
    let p = buy_ticket(&config(), &event(), &mut c, &mut counter, &purchase_keys(), 3, 4, 1, 1_000_000, 2_000)
        .unwrap();
    assert_eq!(p.protocol_fee, 25_000);
    assert_eq!(p.stakeholder_fee, 50_000);
    assert_eq!(p.organizer_amount, 925_000);
    assert_eq!(p.ticket.ticket_id, 1);
    assert_eq!(p.ticket.status, TicketStatus::Active);
    assert!(p.ticket.owner.same(&k(30)));
    assert_eq!(c.sold_supply, 1);
    assert_eq!(c.remaining_supply, 89);
    assert_eq!(counter.purchased_count, 1);
    assert!(counter.wallet.same(&k(30)));
    assert_eq!(counter.bump, 4);
    let p2 = buy_ticket(&config(), &event(), &mut c, &mut counter, &purchase_keys(), 3, 4, 2, 1_000_000, 2_001);
    assert!(p2.is_ok());
    assert_eq!(
        buy_ticket(&config(), &event(), &mut c, &mut counter, &purchase_keys(), 3, 4, 3, 1_000_000, 2_002).err(),
        Some(TicketingError::PurchaseLimitExceeded)
    );
    assert_eq!(c.sold_supply, 2);
}

#[test]
fn buy_ticket_refusals() {
    let cfg = config();
    let ev = event();
    let keys = purchase_keys();
    let mut c = class();
    let mut counter = empty_counter();
    assert_eq!(
        buy_ticket(&cfg, &ev, &mut c, &mut counter, &keys, 0, 0, 1, 1_000_000, 999).err(),
        Some(TicketingError::SaleWindowNotActive)
    );
    assert_eq!(
        buy_ticket(&cfg, &ev, &mut c, &mut counter, &keys, 0, 0, 1, 999_999, 2_000).err(),
        Some(TicketingError::InvalidTicketPrice)
    );
    assert_eq!(
        buy_ticket(&cfg, &ev, &mut c, &mut counter, &keys, 0, 0, 2, 1_000_000, 2_000).err(),
        Some(TicketingError::InvalidTicketId)
    );
    let wrong = PurchaseKeys { stakeholder_wallet: k(99), ..keys };
    assert_eq!(
        buy_ticket(&cfg, &ev, &mut c, &mut counter, &wrong, 0, 0, 1, 1_000_000, 2_000).err(),
        Some(TicketingError::InvalidStakeholderWallet)
    );
    let mut sold_out = class();
    sold_out.remaining_supply = 0;
    assert_eq!(
        buy_ticket(&cfg, &ev, &mut sold_out, &mut counter, &keys, 0, 0, 1, 1_000_000, 2_000).err(),
        Some(TicketingError::InsufficientRemainingSupply)
    );
    let mut paused = config();
    paused.is_paused = true;
    assert_eq!(
        buy_ticket(&paused, &ev, &mut c, &mut counter, &keys, 0, 0, 1, 1_000_000, 2_000).err(),
        Some(TicketingError::ProtocolPaused)
    );
    let mut cancelled = event();
    cancelled.status = EventStatus::Cancelled;
    assert_eq!(
        buy_ticket(&cfg, &cancelled, &mut c, &mut counter, &keys, 0, 0, 1, 1_000_000, 2_000).err(),
        Some(TicketingError::InvalidEventStatusTransition)
    );
    let mut greedy = class();
    greedy.stakeholder_bps = 9_800;
    assert_eq!(
        buy_ticket(&cfg, &ev, &mut greedy, &mut counter, &keys, 0, 0, 1, 1_000_000, 2_000).err(),
        Some(TicketingError::MathOverflow)
    );
    assert_eq!(c.sold_supply, 0);
    assert_eq!(counter.purchased_count, 0);
}

#[test]
fn comp_tickets_are_free_and_counted() {
    let mut c = class();
    let t = issue_comp_ticket(&config(), &organizer(), &event(), &mut c, k(13), k(14), k(10), k(31), 6, 1, 500)
        .unwrap();
    assert!(t.is_comp);
    assert_eq!(t.paid_amount_lamports, 0);
    assert!(t.owner.same(&k(31)));
    assert_eq!(c.sold_supply, 1);
    assert_eq!(c.remaining_supply, 89);
    assert_eq!(c.reserved_supply + c.sold_supply + c.remaining_supply, c.total_supply);
    assert_eq!(
        issue_comp_ticket(&config(), &organizer(), &event(), &mut c, k(13), k(14), k(99), k(31), 6, 2, 500).err(),
        Some(TicketingError::Unauthorized)
    );
    let mut paused_event = event();
    paused_event.is_paused = true;
    assert_eq!(
        issue_comp_ticket(&config(), &organizer(), &paused_event, &mut c, k(13), k(14), k(10), k(31), 6, 2, 500).err(),
        Some(TicketingError::EventPaused)
    );
}

fn organizer_scans() -> ScannerProof {
    ScannerProof {
        scanner: k(10),
        organizer_profile_key: k(12),
        operator_key: Key::zero(),
        operator: None,
        program_id: k(100),
    }
}

#[test]
fn check_in_admits_once_without_reentry() {
    let mut c = class();
    let mut t = ticket();
    assert_eq!(
        check_in_ticket(&config(), &event(), &c, &mut t, &k(10), &organizer_scans(), String::from("G1"), 9_000),
        Ok(false)
    );
    assert_eq!(t.status, TicketStatus::CheckedIn);
    assert_eq!(t.check_in_count, 1);
    assert_eq!(t.checked_in_at, 9_000);
    assert_eq!(t.last_check_in_gate_id, "G1");
    assert_eq!(
        check_in_ticket(&config(), &event(), &c, &mut t, &k(10), &organizer_scans(), String::from("G2"), 9_100),
        Err(TicketingError::TicketAlreadyCheckedIn)
    );
    assert_eq!(set_checkin_policy(&config(), &event(), &mut c, false, 2, 5), Err(TicketingError::ReentryNotAllowed));
    assert_eq!(set_checkin_policy(&config(), &event(), &mut c, true, 1, 5), Ok(()));
    assert_eq!(
        check_in_ticket(&config(), &event(), &c, &mut t, &k(10), &organizer_scans(), String::from("G2"), 9_200),
        Ok(true)
    );
    assert_eq!(t.check_in_count, 2);
    assert_eq!(t.checked_in_at, 9_000);
    assert_eq!(t.last_check_in_at, 9_200);
    assert_eq!(
        check_in_ticket(&config(), &event(), &c, &mut t, &k(10), &organizer_scans(), String::from("G3"), 9_300),
        Err(TicketingError::ReentryLimitExceeded)
    );
    assert_eq!(t.check_in_count, 2);
}

#[test]
fn check_in_refusals() {
    let c = class();
    let mut t = ticket();
    assert_eq!(
        check_in_ticket(&config(), &event(), &c, &mut t, &k(10), &organizer_scans(), String::new(), 9_000),
        Err(TicketingError::InvalidGateIdentifier)
    );
    assert_eq!(
        check_in_ticket(&config(), &event(), &c, &mut t, &k(10), &organizer_scans(), "g".repeat(33), 9_000),
        Err(TicketingError::InvalidGateIdentifier)
    );
    t.status = TicketStatus::Refunded;
    assert_eq!(
        check_in_ticket(&config(), &event(), &c, &mut t, &k(10), &organizer_scans(), String::from("G"), 9_000),
        Err(TicketingError::IllegalTicketStatusTransition)
    );
    assert_eq!(t.check_in_count, 0);
}

#[test]
fn ticket_status_transitions_follow_the_rules() {
    let org = organizer();
    let mut t = ticket();
    assert_eq!(transition_ticket_status(&config(), &org, &mut t, &k(99), 2, 5), Err(TicketingError::Unauthorized));
    assert_eq!(transition_ticket_status(&config(), &org, &mut t, &k(10), 9, 5), Err(TicketingError::InvalidTicketStatus));
    assert_eq!(
        transition_ticket_status(&config(), &org, &mut t, &k(10), 1, 5),
        Err(TicketingError::IllegalTicketStatusTransition)
    );
    assert_eq!(transition_ticket_status(&config(), &org, &mut t, &k(10), 2, 5), Ok(TicketStatus::Active));
    assert_eq!(t.checked_in_at, 5);
    assert_eq!(
        transition_ticket_status(&config(), &org, &mut t, &k(1), 3, 6),
        Err(TicketingError::IllegalTicketStatusTransition)
    );
    assert_eq!(transition_ticket_status(&config(), &org, &mut t, &k(1), 4, 7), Ok(TicketStatus::CheckedIn));
    assert_eq!(t.invalidated_at, 7);
    assert_eq!(t.status, TicketStatus::Invalidated);
    for next in 1..=4u8 {
        assert_eq!(
            transition_ticket_status(&config(), &org, &mut t, &k(1), next, 8),
            Err(TicketingError::IllegalTicketStatusTransition)
        );
    }
}

#[test]
fn ticket_metadata_updates() {
    let mut t = ticket();
    assert_eq!(
        set_ticket_metadata(&config(), &organizer(), &mut t, &k(10), "m".repeat(201), 2, 5),
        Err(TicketingError::InvalidTicketMetadataUriLength)
    );
    assert_eq!(
        set_ticket_metadata(&config(), &organizer(), &mut t, &k(98), String::from("ipfs://t"), 2, 5),
        Err(TicketingError::Unauthorized)
    );
    assert_eq!(set_ticket_metadata(&config(), &organizer(), &mut t, &k(10), String::from("ipfs://t"), 2, 5), Ok(()));
    assert_eq!(t.metadata_uri, "ipfs://t");
    assert_eq!(t.metadata_version, 2);
    assert_eq!(t.metadata_updated_at, 5);
}

fn vaults() -> RefundVaults {
    RefundVaults { organizer_vault: k(11), escrow_vault: k(3), reserve_vault: k(4) }
}

#[test]
fn refund_is_paid_once_and_returns_the_ticket() {
    let org = organizer();
    let mut c = class();
    let mut t = ticket();
    t.owner = k(31);
    assert_eq!(
        refund_ticket(&config(), &org, &mut c, &mut t, &k(10), &vaults(), 400_000, 2, 50),
        Ok(RefundSource::EscrowVault)
    );
    assert_eq!(t.status, TicketStatus::Refunded);
    assert!(t.owner.same(&k(30)));
    assert_eq!(t.refund_amount_lamports, 400_000);
    assert_eq!(t.refund_source, 2);
    assert_eq!(t.refunded_at, 50);
    assert_eq!(c.refunded_supply, 1);
    assert_eq!(
        refund_ticket(&config(), &org, &mut c, &mut t, &k(10), &vaults(), 1, 1, 60),
        Err(TicketingError::RefundNotAllowed)
    );
    assert_eq!(c.refunded_supply, 1);
}

#[test]
fn refund_refusals() {
    let org = organizer();
    let mut c = class();
    let mut t = ticket();
    assert_eq!(
        refund_ticket(&config(), &org, &mut c, &mut t, &k(99), &vaults(), 1, 1, 5),
        Err(TicketingError::Unauthorized)
    );
    assert_eq!(
        refund_ticket(&config(), &org, &mut c, &mut t, &k(10), &vaults(), 0, 1, 5),
        Err(TicketingError::InvalidRefundAmount)
    );
    assert_eq!(
        refund_ticket(&config(), &org, &mut c, &mut t, &k(10), &vaults(), 1_000_001, 1, 5),
        Err(TicketingError::InvalidRefundAmount)
    );
    assert_eq!(
        refund_ticket(&config(), &org, &mut c, &mut t, &k(10), &vaults(), 1, 4, 5),
        Err(TicketingError::InvalidRefundSource)
    );
    let wrong = RefundVaults { reserve_vault: k(77), ..vaults() };
    assert_eq!(
        refund_ticket(&config(), &org, &mut c, &mut t, &k(10), &wrong, 1, 3, 5),
        Err(TicketingError::InvalidRefundSource)
    );
    assert_eq!(RefundSource::from_u8(1), Ok(RefundSource::OrganizerVault));
    assert_eq!(RefundSource::from_u8(0), Err(TicketingError::InvalidRefundSource));
    c.refunded_supply = u32::MAX;
    assert_eq!(
        refund_ticket(&config(), &org, &mut c, &mut t, &k(10), &vaults(), 1, 1, 5),
        Err(TicketingError::MathOverflow)
    );
    assert_eq!(t.status, TicketStatus::Active);
}

#[test]
fn disputes_and_chargebacks() {
    let mut t = ticket();
    assert_eq!(
        flag_dispute(&config(), &organizer(), &mut t, &k(10), false, true, 3, 5),
        Err(TicketingError::ChargebackRequiresDispute)
    );
    assert_eq!(flag_dispute(&config(), &organizer(), &mut t, &k(10), true, true, 3, 5), Ok(()));
    assert!(t.is_disputed && t.is_chargeback);
    assert_eq!(t.disputed_at, 5);
    assert_eq!(flag_dispute(&config(), &organizer(), &mut t, &k(1), true, false, 4, 9), Ok(()));
    assert_eq!(t.disputed_at, 5);
    assert_eq!(t.dispute_reason_code, 4);
    assert_eq!(t.dispute_updated_at, 9);
}
