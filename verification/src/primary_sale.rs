//! Primary sales: tickets bought at face value and complimentary tickets.

use vstd::prelude::*;

use crate::constants::TICKET_ACCOUNT_SCHEMA_VERSION;
use crate::error::TicketingError;
use crate::key::{zero_key, Key};
use crate::state::{
    EventAccount, EventStatus, OrganizerProfile, ProtocolConfig, Ticket, TicketClass,
    TicketStatus, WalletPurchaseCounter,
};

verus! {

/// `x` reduced to 64 bits, as an `as u64` cast does.
pub open spec fn wrap_u64(x: int) -> int {
    x % 0x1_0000_0000_0000_0000
}

/// The basis-point share of an amount, rounded down and cut to 64 bits the
/// way the fee computation casts it.
pub open spec fn spec_fee(amount: int, bps: int) -> int {
    wrap_u64((amount * bps) / 10_000)
}

/// The basis-point share of an amount, rounded down and cut to 64 bits.
pub fn fee_share(amount: u64, bps: u16) -> (r: u64)
    ensures
        r == spec_fee(amount as int, bps as int),
{
    let a = amount as u128;
    let b = bps as u128;
    assert(a * b <= 0xffff_ffff_ffff_ffffu128 * 0xffffu128) by (nonlinear_arith)
        requires
            a <= 0xffff_ffff_ffff_ffffu128,
            b <= 0xffffu128,
    ;
    let share: u128 = a * b / 10_000u128;
    let cut: u128 = share % 0x1_0000_0000_0000_0000u128;
    cut as u64
}

/// Addresses a primary purchase involves.
#[derive(Clone, Copy, Debug)]
pub struct PurchaseKeys {
    pub event: Key,
    pub ticket_class: Key,
    pub buyer: Key,
    pub stakeholder_wallet: Key,
}

/// The ticket a purchase creates and the lamports the buyer pays out.
#[derive(Clone, Debug)]
pub struct PrimaryPurchase {
    pub ticket: Ticket,
    /// To the protocol fee vault.
    pub protocol_fee: u64,
    /// To the class's stakeholder wallet.
    pub stakeholder_fee: u64,
    /// To the organizer's payout wallet.
    pub organizer_amount: u64,
}

/// A newly minted ticket: active, held by `holder`, with nothing recorded
/// about check-in, refund, dispute, metadata or transfers.
pub open spec fn is_fresh_ticket(
    t: Ticket,
    bump: u8,
    schema_version: u16,
    event: Key,
    ticket_class: Key,
    holder: Key,
    ticket_id: u32,
    paid: u64,
    is_comp: bool,
    now: i64,
) -> bool {
    &&& t.bump == bump
    &&& t.schema_version == schema_version
    &&& t.deprecated_layout_version == 0
    &&& t.replacement_account@ == zero_key()
    &&& t.deprecated_at == 0
    &&& t.event == event
    &&& t.ticket_class == ticket_class
    &&& t.owner == holder
    &&& t.buyer == holder
    &&& t.ticket_id == ticket_id
    &&& t.status == TicketStatus::Active
    &&& t.paid_amount_lamports == paid
    &&& t.is_comp == is_comp
    &&& t.created_at == now
    &&& t.status_updated_at == now
    &&& t.checked_in_at == 0
    &&& t.last_check_in_at == 0
    &&& t.check_in_count == 0
    &&& t.last_check_in_gate_id@ == Seq::<char>::empty()
    &&& t.refunded_at == 0
    &&& t.refund_source == 0
    &&& t.refund_amount_lamports == 0
    &&& t.invalidated_at == 0
    &&& !t.is_disputed
    &&& !t.is_chargeback
    &&& t.disputed_at == 0
    &&& t.dispute_reason_code == 0
    &&& t.dispute_updated_at == 0
    &&& t.metadata_uri@ == Seq::<char>::empty()
    &&& t.metadata_version == 0
    &&& t.metadata_updated_at == 0
    &&& t.transfer_count == 0
    &&& t.last_transfer_at == 0
    &&& t.compliance_decision_code == 0
    &&& t.compliance_checked_at == 0
    &&& !t.purchase_trust_recorded
    &&& !t.attendance_trust_recorded
}

/// Mints a ticket value.
fn mint_ticket(
    bump: u8,
    schema_version: u16,
    event: Key,
    ticket_class: Key,
    holder: Key,
    ticket_id: u32,
    paid: u64,
    is_comp: bool,
    now: i64,
) -> (t: Ticket)
    ensures
        is_fresh_ticket(
            t,
            bump,
            schema_version,
            event,
            ticket_class,
            holder,
            ticket_id,
            paid,
            is_comp,
            now,
        ),
{
    Ticket {
        bump,
        schema_version,
        deprecated_layout_version: 0,
        replacement_account: Key::zero(),
        deprecated_at: 0,
        event,
        ticket_class,
        owner: holder,
        buyer: holder,
        ticket_id,
        status: TicketStatus::Active,
        paid_amount_lamports: paid,
        is_comp,
        created_at: now,
        status_updated_at: now,
        checked_in_at: 0,
        last_check_in_at: 0,
        check_in_count: 0,
        last_check_in_gate_id: String::new(),
        refunded_at: 0,
        refund_source: 0,
        refund_amount_lamports: 0,
        invalidated_at: 0,
        is_disputed: false,
        is_chargeback: false,
        disputed_at: 0,
        dispute_reason_code: 0,
        dispute_updated_at: 0,
        metadata_uri: String::new(),
        metadata_version: 0,
        metadata_updated_at: 0,
        transfer_count: 0,
        last_transfer_at: 0,
        compliance_decision_code: 0,
        compliance_checked_at: 0,
        purchase_trust_recorded: false,
        attendance_trust_recorded: false,
    }
}

/// The class after one more ticket of it has been issued.
pub open spec fn class_after_issue(c: TicketClass, now: i64) -> TicketClass {
    TicketClass {
        sold_supply: (c.sold_supply + 1) as u32,
        remaining_supply: (c.remaining_supply - 1) as u32,
        updated_at: now,
        ..c
    }
}

/// The purchase counter once it is known to belong to the buyer: a counter
/// seen for the first time (zero wallet) is claimed with a zero count.
pub open spec fn claimed_counter(
    c: WalletPurchaseCounter,
    counter_bump: u8,
    keys: PurchaseKeys,
) -> WalletPurchaseCounter {
    if c.wallet@ == zero_key() {
        WalletPurchaseCounter {
            bump: counter_bump,
            event: keys.event,
            ticket_class: keys.ticket_class,
            wallet: keys.buyer,
            purchased_count: 0,
            ..c
        }
    } else {
        c
    }
}

/// The first reason a primary purchase is refused before its ticket id is
/// compared with the next one to sell, if any.
pub open spec fn buy_ticket_precheck(
    protocol_config: ProtocolConfig,
    event_account: EventAccount,
    ticket_class: TicketClass,
    expected_price_lamports: u64,
    now: i64,
) -> Option<TicketingError> {
    if protocol_config.is_paused {
        Some(TicketingError::ProtocolPaused)
    } else if !(event_account.status == EventStatus::Draft || event_account.status
        == EventStatus::Frozen) {
        Some(TicketingError::InvalidEventStatusTransition)
    } else if !(now >= ticket_class.sale_start_ts && now <= ticket_class.sale_end_ts) {
        Some(TicketingError::SaleWindowNotActive)
    } else if ticket_class.remaining_supply == 0 {
        Some(TicketingError::InsufficientRemainingSupply)
    } else if expected_price_lamports != ticket_class.face_price_lamports {
        Some(TicketingError::InvalidTicketPrice)
    } else {
        None
    }
}

/// Checks a primary purchase as far as its ticket id: refused for the first
/// reason of `buy_ticket_precheck`, accepted otherwise.
pub fn precheck_buy_ticket(
    protocol_config: &ProtocolConfig,
    event_account: &EventAccount,
    ticket_class: &TicketClass,
    expected_price_lamports: u64,
    now: i64,
) -> (r: Result<(), TicketingError>)
    ensures
        match buy_ticket_precheck(
            *protocol_config,
            *event_account,
            *ticket_class,
            expected_price_lamports,
            now,
        ) {
            Some(e) => r == Err::<(), TicketingError>(e),
            None => r is Ok,
        },
{
    if protocol_config.is_paused {
        return Err(TicketingError::ProtocolPaused);
    }
    if !event_account.status.is_open() {
        return Err(TicketingError::InvalidEventStatusTransition);
    }
    if !(now >= ticket_class.sale_start_ts && now <= ticket_class.sale_end_ts) {
        return Err(TicketingError::SaleWindowNotActive);
    }
    if ticket_class.remaining_supply == 0 {
        return Err(TicketingError::InsufficientRemainingSupply);
    }
    if expected_price_lamports != ticket_class.face_price_lamports {
        return Err(TicketingError::InvalidTicketPrice);
    }
    Ok(())
}

/// The first reason a primary purchase is refused, if any.
pub open spec fn buy_ticket_error(
    protocol_config: ProtocolConfig,
    event_account: EventAccount,
    ticket_class: TicketClass,
    counter: WalletPurchaseCounter,
    counter_bump: u8,
    keys: PurchaseKeys,
    ticket_id: u32,
    expected_price_lamports: u64,
    now: i64,
) -> Option<TicketingError> {
    let claimed = claimed_counter(counter, counter_bump, keys);
    let protocol_fee = spec_fee(
        expected_price_lamports as int,
        protocol_config.protocol_fee_bps as int,
    );
    let stakeholder_fee = spec_fee(
        expected_price_lamports as int,
        ticket_class.stakeholder_bps as int,
    );
    if buy_ticket_precheck(
        protocol_config,
        event_account,
        ticket_class,
        expected_price_lamports,
        now,
    ) is Some {
        buy_ticket_precheck(
            protocol_config,
            event_account,
            ticket_class,
            expected_price_lamports,
            now,
        )
    } else if ticket_id != ticket_class.sold_supply + 1 {
        Some(TicketingError::InvalidTicketId)
    } else if claimed.purchased_count >= ticket_class.per_wallet_limit {
        Some(TicketingError::PurchaseLimitExceeded)
    } else if ticket_class.stakeholder_bps > 0 && keys.stakeholder_wallet@
        != ticket_class.stakeholder_wallet@ {
        Some(TicketingError::InvalidStakeholderWallet)
    } else if protocol_fee + stakeholder_fee > u64::MAX {
        Some(TicketingError::MathOverflow)
    } else if protocol_fee + stakeholder_fee > expected_price_lamports {
        Some(TicketingError::MathOverflow)
    } else {
        None
    }
}

/// Sells the next ticket of a class at face value.
///
/// Refused, with the class and the counter unchanged, for the first reason
/// of `buy_ticket_error`. Otherwise the buyer pays the protocol fee and the
/// stakeholder fee (each its basis points of the price) and the organizer
/// the rest; the class has one more ticket sold and one fewer on sale; the
/// buyer's counter goes up by one; and a fresh ticket held by the buyer is
/// returned.
pub fn buy_ticket(
    protocol_config: &ProtocolConfig,
    event_account: &EventAccount,
    ticket_class: &mut TicketClass,
    counter: &mut WalletPurchaseCounter,
    keys: &PurchaseKeys,
    ticket_bump: u8,
    counter_bump: u8,
    ticket_id: u32,
    expected_price_lamports: u64,
    now: i64,
) -> (r: Result<PrimaryPurchase, TicketingError>)
    requires
        buy_ticket_precheck(
            *protocol_config,
            *event_account,
            *old(ticket_class),
            expected_price_lamports,
            now,
        ) is None ==> old(ticket_class).sold_supply < u32::MAX,
    ensures
        ({
            let err = buy_ticket_error(
                *protocol_config,
                *event_account,
                *old(ticket_class),
                *old(counter),
                counter_bump,
                *keys,
                ticket_id,
                expected_price_lamports,
                now,
            );
            let claimed = claimed_counter(*old(counter), counter_bump, *keys);
            &&& err is Some <==> r is Err
            &&& r is Err ==> r == Err::<PrimaryPurchase, TicketingError>(err.unwrap())
                && *final(ticket_class) == *old(ticket_class) && *final(counter) == *old(counter)
            &&& r matches Ok(p) ==> {
                &&& p.protocol_fee == spec_fee(
                    expected_price_lamports as int,
                    protocol_config.protocol_fee_bps as int,
                )
                &&& p.stakeholder_fee == spec_fee(
                    expected_price_lamports as int,
                    old(ticket_class).stakeholder_bps as int,
                )
                &&& p.protocol_fee + p.stakeholder_fee + p.organizer_amount
                    == expected_price_lamports
                &&& *final(ticket_class) == class_after_issue(*old(ticket_class), now)
                &&& *final(counter) == (WalletPurchaseCounter {
                    purchased_count: (claimed.purchased_count + 1) as u16,
                    updated_at: now,
                    ..claimed
                })
                &&& is_fresh_ticket(
                    p.ticket,
                    ticket_bump,
                    0,
                    keys.event,
                    keys.ticket_class,
                    keys.buyer,
                    ticket_id,
                    expected_price_lamports,
                    false,
                    now,
                )
            }
        }),
{
    match precheck_buy_ticket(
        protocol_config,
        event_account,
        ticket_class,
        expected_price_lamports,
        now,
    ) {
        Ok(()) => {},
        Err(e) => return Err(e),
    }
    if ticket_id != ticket_class.sold_supply + 1 {
        return Err(TicketingError::InvalidTicketId);
    }
    let fresh_counter = counter.wallet.is_zero();
    let count_before: u16 = if fresh_counter {
        0
    } else {
        counter.purchased_count
    };
    if count_before >= ticket_class.per_wallet_limit {
        return Err(TicketingError::PurchaseLimitExceeded);
    }

    let total = expected_price_lamports;
    let protocol_fee = fee_share(total, protocol_config.protocol_fee_bps);
    let stakeholder_fee = fee_share(total, ticket_class.stakeholder_bps);
    if ticket_class.stakeholder_bps > 0 && !keys.stakeholder_wallet.same(
        &ticket_class.stakeholder_wallet,
    ) {
        return Err(TicketingError::InvalidStakeholderWallet);
    }
    let fees = match protocol_fee.checked_add(stakeholder_fee) {
        Some(v) => v,
        None => return Err(TicketingError::MathOverflow),
    };
    if fees > total {
        return Err(TicketingError::MathOverflow);
    }
    let organizer_amount = total - fees;

    ticket_class.sold_supply = ticket_class.sold_supply + 1;
    ticket_class.remaining_supply = ticket_class.remaining_supply - 1;
    ticket_class.updated_at = now;

    if fresh_counter {
        counter.bump = counter_bump;
        counter.event = keys.event;
        counter.ticket_class = keys.ticket_class;
        counter.wallet = keys.buyer;
        counter.purchased_count = 0;
    }
    counter.purchased_count = count_before + 1;
    counter.updated_at = now;

    let ticket = mint_ticket(
        ticket_bump,
        0,
        keys.event,
        keys.ticket_class,
        keys.buyer,
        ticket_id,
        total,
        false,
        now,
    );
    Ok(PrimaryPurchase { ticket, protocol_fee, stakeholder_fee, organizer_amount })
}

/// The first reason a complimentary ticket is refused before its ticket id
/// is compared with the next one to issue, if any.
pub open spec fn issue_comp_ticket_precheck(
    protocol_config: ProtocolConfig,
    organizer_profile: OrganizerProfile,
    event_account: EventAccount,
    ticket_class: TicketClass,
    issuer: Key,
) -> Option<TicketingError> {
    if protocol_config.is_paused {
        Some(TicketingError::ProtocolPaused)
    } else if event_account.is_paused {
        Some(TicketingError::EventPaused)
    } else if !(event_account.status == EventStatus::Draft || event_account.status
        == EventStatus::Frozen) {
        Some(TicketingError::InvalidEventStatusTransition)
    } else if !(issuer@ == protocol_config.admin@ || issuer@ == organizer_profile.authority@) {
        Some(TicketingError::Unauthorized)
    } else if ticket_class.remaining_supply == 0 {
        Some(TicketingError::InsufficientRemainingSupply)
    } else {
        None
    }
}

/// Checks a complimentary ticket as far as its ticket id: refused for the
/// first reason of `issue_comp_ticket_precheck`, accepted otherwise.
pub fn precheck_issue_comp_ticket(
    protocol_config: &ProtocolConfig,
    organizer_profile: &OrganizerProfile,
    event_account: &EventAccount,
    ticket_class: &TicketClass,
    issuer: &Key,
) -> (r: Result<(), TicketingError>)
    ensures
        match issue_comp_ticket_precheck(
            *protocol_config,
            *organizer_profile,
            *event_account,
            *ticket_class,
            *issuer,
        ) {
            Some(e) => r == Err::<(), TicketingError>(e),
            None => r is Ok,
        },
{
    if protocol_config.is_paused {
        return Err(TicketingError::ProtocolPaused);
    }
    if event_account.is_paused {
        return Err(TicketingError::EventPaused);
    }
    if !event_account.status.is_open() {
        return Err(TicketingError::InvalidEventStatusTransition);
    }
    let is_admin = issuer.same(&protocol_config.admin);
    let is_organizer = issuer.same(&organizer_profile.authority);
    if !(is_admin || is_organizer) {
        return Err(TicketingError::Unauthorized);
    }
    if ticket_class.remaining_supply == 0 {
        return Err(TicketingError::InsufficientRemainingSupply);
    }
    Ok(())
}

/// The first reason a complimentary ticket is refused, if any.
pub open spec fn issue_comp_ticket_error(
    protocol_config: ProtocolConfig,
    organizer_profile: OrganizerProfile,
    event_account: EventAccount,
    ticket_class: TicketClass,
    issuer: Key,
    ticket_id: u32,
) -> Option<TicketingError> {
    if issue_comp_ticket_precheck(
        protocol_config,
        organizer_profile,
        event_account,
        ticket_class,
        issuer,
    ) is Some {
        issue_comp_ticket_precheck(
            protocol_config,
            organizer_profile,
            event_account,
            ticket_class,
            issuer,
        )
    } else if ticket_id != ticket_class.sold_supply + 1 {
        Some(TicketingError::InvalidTicketId)
    } else {
        None
    }
}

/// Gives the next ticket of a class away for free.
///
/// Only the protocol admin or the organizer may issue one. Refused, with the
/// class unchanged, for the first reason of `issue_comp_ticket_error`;
/// otherwise the class has one more ticket issued and one fewer on sale, and
/// a fresh complimentary ticket held by the recipient is returned.
pub fn issue_comp_ticket(
    protocol_config: &ProtocolConfig,
    organizer_profile: &OrganizerProfile,
    event_account: &EventAccount,
    ticket_class: &mut TicketClass,
    event_key: Key,
    ticket_class_key: Key,
    issuer: Key,
    recipient: Key,
    ticket_bump: u8,
    ticket_id: u32,
    now: i64,
) -> (r: Result<Ticket, TicketingError>)
    requires
        issue_comp_ticket_precheck(
            *protocol_config,
            *organizer_profile,
            *event_account,
            *old(ticket_class),
            issuer,
        ) is None ==> old(ticket_class).sold_supply < u32::MAX,
    ensures
        ({
            let err = issue_comp_ticket_error(
                *protocol_config,
                *organizer_profile,
                *event_account,
                *old(ticket_class),
                issuer,
                ticket_id,
            );
            &&& err is Some <==> r is Err
            &&& r is Err ==> r == Err::<Ticket, TicketingError>(err.unwrap())
                && *final(ticket_class) == *old(ticket_class)
            &&& r matches Ok(t) ==> *final(ticket_class) == class_after_issue(
                *old(ticket_class),
                now,
            ) && is_fresh_ticket(
                t,
                ticket_bump,
                TICKET_ACCOUNT_SCHEMA_VERSION,
                event_key,
                ticket_class_key,
                recipient,
                ticket_id,
                0,
                true,
                now,
            )
        }),
{
    match precheck_issue_comp_ticket(
        protocol_config,
        organizer_profile,
        event_account,
        ticket_class,
        &issuer,
    ) {
        Ok(()) => {},
        Err(e) => return Err(e),
    }
    if ticket_id != ticket_class.sold_supply + 1 {
        return Err(TicketingError::InvalidTicketId);
    }
    ticket_class.sold_supply = ticket_class.sold_supply + 1;
    ticket_class.remaining_supply = ticket_class.remaining_supply - 1;
    ticket_class.updated_at = now;
    Ok(
        mint_ticket(
            ticket_bump,
            TICKET_ACCOUNT_SCHEMA_VERSION,
            event_key,
            ticket_class_key,
            recipient,
            ticket_id,
            0,
            true,
            now,
        ),
    )
}

/// Law: issuing a ticket keeps the class's inventory balanced, and a
/// balanced class with tickets on sale can always count one more sale.
pub proof fn law_issue_keeps_supply_balanced(c: TicketClass, now: i64)
    requires
        c.supply_balanced(),
        c.remaining_supply > 0,
    ensures
        c.sold_supply < u32::MAX,
        class_after_issue(c, now).supply_balanced(),
        class_after_issue(c, now).sold_supply == c.sold_supply + 1,
        class_after_issue(c, now).remaining_supply == c.remaining_supply - 1,
{
}

/// Law: no wallet buys more tickets of a class than the class allows: a
/// purchase is accepted only while the wallet's count is under the limit,
/// so the count it leaves is at most the limit.
pub proof fn law_purchases_within_wallet_limit(
    protocol_config: ProtocolConfig,
    event_account: EventAccount,
    ticket_class: TicketClass,
    counter: WalletPurchaseCounter,
    counter_bump: u8,
    keys: PurchaseKeys,
    ticket_id: u32,
    expected_price_lamports: u64,
    now: i64,
)
    requires
        buy_ticket_error(
            protocol_config,
            event_account,
            ticket_class,
            counter,
            counter_bump,
            keys,
            ticket_id,
            expected_price_lamports,
            now,
        ) is None,
    ensures
        claimed_counter(counter, counter_bump, keys).purchased_count + 1
            <= ticket_class.per_wallet_limit,
{
}

} // verus!
