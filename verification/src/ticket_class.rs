//! Ticket classes: description, creation, redescription and reservations.

use vstd::prelude::*;

use crate::constants::MAX_TICKET_CLASS_NAME_LEN;
use crate::error::TicketingError;
use crate::key::Key;
use crate::state::{EventAccount, EventStatus, ProtocolConfig, TicketClass};
use crate::text::{byte_len, text_is_empty, text_len};

verus! {

/// What an organizer describes a ticket class with.
#[derive(Clone, Debug)]
pub struct TicketClassInput {
    pub name: String,
    pub total_supply: u32,
    pub reserved_supply: u32,
    pub face_price_lamports: u64,
    pub sale_start_ts: i64,
    pub sale_end_ts: i64,
    pub per_wallet_limit: u16,
    pub is_transferable: bool,
    pub is_resale_enabled: bool,
    pub stakeholder_wallet: Key,
    pub stakeholder_bps: u16,
}

/// The first reason a class description is refused, if any: an empty or
/// too long name, no supply, more reserved than supplied, a sale window
/// that does not open before it closes, no per-wallet allowance, or a
/// stakeholder share above the whole.
pub open spec fn ticket_class_input_error(input: TicketClassInput) -> Option<TicketingError> {
    if input.name@.len() == 0 || byte_len(input.name@) > MAX_TICKET_CLASS_NAME_LEN {
        Some(TicketingError::InvalidTicketClassNameLength)
    } else if input.total_supply == 0 {
        Some(TicketingError::InvalidTicketClassSupply)
    } else if input.reserved_supply > input.total_supply {
        Some(TicketingError::InvalidTicketClassSupply)
    } else if !(input.sale_start_ts < input.sale_end_ts) {
        Some(TicketingError::InvalidTicketClassSaleWindow)
    } else if input.per_wallet_limit == 0 {
        Some(TicketingError::InvalidTicketClassPurchaseLimit)
    } else if input.stakeholder_bps > 10_000 {
        Some(TicketingError::InvalidFeeBps)
    } else {
        None
    }
}

/// Checks a class description.
pub fn validate_ticket_class_input(input: &TicketClassInput) -> (r: Result<(), TicketingError>)
    ensures
        match ticket_class_input_error(*input) {
            Some(e) => r == Err::<(), TicketingError>(e),
            None => r is Ok,
        },
{
    if text_is_empty(&input.name) || text_len(&input.name) > MAX_TICKET_CLASS_NAME_LEN {
        return Err(TicketingError::InvalidTicketClassNameLength);
    }
    if input.total_supply == 0 {
        return Err(TicketingError::InvalidTicketClassSupply);
    }
    if input.reserved_supply > input.total_supply {
        return Err(TicketingError::InvalidTicketClassSupply);
    }
    if !(input.sale_start_ts < input.sale_end_ts) {
        return Err(TicketingError::InvalidTicketClassSaleWindow);
    }
    if input.per_wallet_limit == 0 {
        return Err(TicketingError::InvalidTicketClassPurchaseLimit);
    }
    if input.stakeholder_bps > 10_000 {
        return Err(TicketingError::InvalidFeeBps);
    }
    Ok(())
}

/// The first reason creating a class is refused, if any.
pub open spec fn create_ticket_class_error(
    protocol_config: ProtocolConfig,
    event_account: EventAccount,
    input: TicketClassInput,
) -> Option<TicketingError> {
    if ticket_class_input_error(input) is Some {
        ticket_class_input_error(input)
    } else if protocol_config.is_paused {
        Some(TicketingError::ProtocolPaused)
    } else if !(event_account.status == EventStatus::Draft || event_account.status
        == EventStatus::Frozen) {
        Some(TicketingError::InvalidEventStatusTransition)
    } else {
        None
    }
}

/// A class as created: of the event, described by the input, nothing sold
/// or refunded, everything not reserved on sale, no re-entry, created now.
pub open spec fn is_new_ticket_class(
    c: TicketClass,
    class_bump: u8,
    event_key: Key,
    class_id: u16,
    input: TicketClassInput,
    now: i64,
) -> bool {
    &&& c.bump == class_bump
    &&& c.event == event_key
    &&& c.class_id == class_id
    &&& c.name@ == input.name@
    &&& c.total_supply == input.total_supply
    &&& c.reserved_supply == input.reserved_supply
    &&& c.sold_supply == 0
    &&& c.refunded_supply == 0
    &&& c.remaining_supply == input.total_supply - input.reserved_supply
    &&& c.face_price_lamports == input.face_price_lamports
    &&& c.sale_start_ts == input.sale_start_ts
    &&& c.sale_end_ts == input.sale_end_ts
    &&& c.per_wallet_limit == input.per_wallet_limit
    &&& c.is_transferable == input.is_transferable
    &&& c.is_resale_enabled == input.is_resale_enabled
    &&& !c.allow_reentry
    &&& c.max_reentries == 0
    &&& c.stakeholder_wallet == input.stakeholder_wallet
    &&& c.stakeholder_bps == input.stakeholder_bps
    &&& c.created_at == now
    &&& c.updated_at == now
}

/// The organizer adds a ticket class to an event in draft or frozen.
///
/// Refused for the first reason of `create_ticket_class_error`, the account
/// unchanged; otherwise the account holds the class as
/// `is_new_ticket_class` describes.
pub fn create_ticket_class(
    protocol_config: &ProtocolConfig,
    event_account: &EventAccount,
    event_key: &Key,
    ticket_class: &mut TicketClass,
    class_bump: u8,
    class_id: u16,
    input: TicketClassInput,
    now: i64,
) -> (r: Result<(), TicketingError>)
    ensures
        ({
            let err = create_ticket_class_error(*protocol_config, *event_account, input);
            &&& err is Some ==> r == Err::<(), TicketingError>(err.unwrap()) && *final(ticket_class) == *old(ticket_class)
            &&& err is None ==> r is Ok && is_new_ticket_class(
                *final(ticket_class),
                class_bump,
                *event_key,
                class_id,
                input,
                now,
            )
        }),
{
    validate_ticket_class_input(&input)?;
    if protocol_config.is_paused {
        return Err(TicketingError::ProtocolPaused);
    }
    if !event_account.status.is_open() {
        return Err(TicketingError::InvalidEventStatusTransition);
    }
    let remaining_supply = input.total_supply - input.reserved_supply;
    let TicketClassInput {
        name,
        total_supply,
        reserved_supply,
        face_price_lamports,
        sale_start_ts,
        sale_end_ts,
        per_wallet_limit,
        is_transferable,
        is_resale_enabled,
        stakeholder_wallet,
        stakeholder_bps,
    } = input;
    ticket_class.bump = class_bump;
    ticket_class.event = *event_key;
    ticket_class.class_id = class_id;
    ticket_class.name = name;
    ticket_class.total_supply = total_supply;
    ticket_class.reserved_supply = reserved_supply;
    ticket_class.sold_supply = 0;
    ticket_class.refunded_supply = 0;
    ticket_class.remaining_supply = remaining_supply;
    ticket_class.face_price_lamports = face_price_lamports;
    ticket_class.sale_start_ts = sale_start_ts;
    ticket_class.sale_end_ts = sale_end_ts;
    ticket_class.per_wallet_limit = per_wallet_limit;
    ticket_class.is_transferable = is_transferable;
    ticket_class.is_resale_enabled = is_resale_enabled;
    ticket_class.allow_reentry = false;
    ticket_class.max_reentries = 0;
    ticket_class.stakeholder_wallet = stakeholder_wallet;
    ticket_class.stakeholder_bps = stakeholder_bps;
    ticket_class.created_at = now;
    ticket_class.updated_at = now;
    Ok(())
}

/// The first reason a class update is refused, if any.
pub open spec fn update_ticket_class_error(
    event_account: EventAccount,
    c: TicketClass,
    input: TicketClassInput,
    now: i64,
) -> Option<TicketingError> {
    if ticket_class_input_error(input) is Some {
        ticket_class_input_error(input)
    } else if !(event_account.status == EventStatus::Draft || event_account.status
        == EventStatus::Frozen) {
        Some(TicketingError::InvalidEventStatusTransition)
    } else if !(now < c.sale_start_ts) {
        Some(TicketingError::SalesAlreadyStarted)
    } else if input.reserved_supply + c.sold_supply > u32::MAX {
        Some(TicketingError::MathOverflow)
    } else if input.reserved_supply + c.sold_supply > input.total_supply {
        Some(TicketingError::InvalidTicketClassSupply)
    } else {
        None
    }
}

/// The organizer redescribes a class of an event in draft or frozen, before
/// the class's sales start. Tickets already sold stay sold; what is neither
/// reserved nor sold is on sale.
///
/// Refused for the first reason of `update_ticket_class_error`, the class
/// unchanged.
pub fn update_ticket_class(
    event_account: &EventAccount,
    ticket_class: &mut TicketClass,
    input: TicketClassInput,
    now: i64,
) -> (r: Result<(), TicketingError>)
    ensures
        ({
            let err = update_ticket_class_error(*event_account, *old(ticket_class), input, now);
            &&& err is Some ==> r == Err::<(), TicketingError>(err.unwrap()) && *final(ticket_class) == *old(ticket_class)
            &&& err is None ==> r is Ok && final(ticket_class).name@ == input.name@ && *final(ticket_class) == (TicketClass {
                name: final(ticket_class).name,
                total_supply: input.total_supply,
                reserved_supply: input.reserved_supply,
                remaining_supply: (input.total_supply - (input.reserved_supply + old(ticket_class).sold_supply)) as u32,
                face_price_lamports: input.face_price_lamports,
                sale_start_ts: input.sale_start_ts,
                sale_end_ts: input.sale_end_ts,
                per_wallet_limit: input.per_wallet_limit,
                is_transferable: input.is_transferable,
                is_resale_enabled: input.is_resale_enabled,
                stakeholder_wallet: input.stakeholder_wallet,
                stakeholder_bps: input.stakeholder_bps,
                updated_at: now,
                ..*old(ticket_class)
            })
        }),
{
    validate_ticket_class_input(&input)?;
    if !event_account.status.is_open() {
        return Err(TicketingError::InvalidEventStatusTransition);
    }
    if !(now < ticket_class.sale_start_ts) {
        return Err(TicketingError::SalesAlreadyStarted);
    }
    let reserved_plus_sold = match input.reserved_supply.checked_add(ticket_class.sold_supply) {
        Some(v) => v,
        None => return Err(TicketingError::MathOverflow),
    };
    if reserved_plus_sold > input.total_supply {
        return Err(TicketingError::InvalidTicketClassSupply);
    }
    let remaining_supply = input.total_supply - reserved_plus_sold;
    let TicketClassInput {
        name,
        total_supply,
        reserved_supply,
        face_price_lamports,
        sale_start_ts,
        sale_end_ts,
        per_wallet_limit,
        is_transferable,
        is_resale_enabled,
        stakeholder_wallet,
        stakeholder_bps,
    } = input;
    ticket_class.name = name;
    ticket_class.total_supply = total_supply;
    ticket_class.reserved_supply = reserved_supply;
    ticket_class.remaining_supply = remaining_supply;
    ticket_class.face_price_lamports = face_price_lamports;
    ticket_class.sale_start_ts = sale_start_ts;
    ticket_class.sale_end_ts = sale_end_ts;
    ticket_class.per_wallet_limit = per_wallet_limit;
    ticket_class.is_transferable = is_transferable;
    ticket_class.is_resale_enabled = is_resale_enabled;
    ticket_class.stakeholder_wallet = stakeholder_wallet;
    ticket_class.stakeholder_bps = stakeholder_bps;
    ticket_class.updated_at = now;
    Ok(())
}

/// The first reason a reservation is refused, if any.
pub open spec fn reserve_inventory_error(
    event_account: EventAccount,
    c: TicketClass,
    amount: u32,
) -> Option<TicketingError> {
    if amount == 0 {
        Some(TicketingError::InvalidReserveAmount)
    } else if !(event_account.status == EventStatus::Draft || event_account.status
        == EventStatus::Frozen) {
        Some(TicketingError::InvalidEventStatusTransition)
    } else if c.reserved_supply + amount > u32::MAX {
        Some(TicketingError::MathOverflow)
    } else if c.reserved_supply + amount + c.sold_supply > u32::MAX {
        Some(TicketingError::MathOverflow)
    } else if c.reserved_supply + amount + c.sold_supply > c.total_supply {
        Some(TicketingError::InsufficientRemainingSupply)
    } else {
        None
    }
}

/// The organizer holds back `amount` more tickets of a class from sale.
///
/// Refused for the first reason of `reserve_inventory_error`, the class
/// unchanged; otherwise the reservation grows by `amount` and what is on
/// sale is the rest of the supply.
pub fn reserve_inventory(
    event_account: &EventAccount,
    ticket_class: &mut TicketClass,
    amount: u32,
    now: i64,
) -> (r: Result<(), TicketingError>)
    ensures
        ({
            let err = reserve_inventory_error(*event_account, *old(ticket_class), amount);
            &&& err is Some ==> r == Err::<(), TicketingError>(err.unwrap()) && *final(ticket_class) == *old(ticket_class)
            &&& err is None ==> r is Ok && *final(ticket_class) == (TicketClass {
                reserved_supply: (old(ticket_class).reserved_supply + amount) as u32,
                remaining_supply: (old(ticket_class).total_supply - (old(ticket_class).reserved_supply + amount + old(ticket_class).sold_supply)) as u32,
                updated_at: now,
                ..*old(ticket_class)
            })
        }),
{
    if amount == 0 {
        return Err(TicketingError::InvalidReserveAmount);
    }
    if !event_account.status.is_open() {
        return Err(TicketingError::InvalidEventStatusTransition);
    }
    let new_reserved = match ticket_class.reserved_supply.checked_add(amount) {
        Some(v) => v,
        None => return Err(TicketingError::MathOverflow),
    };
    let used_supply = match new_reserved.checked_add(ticket_class.sold_supply) {
        Some(v) => v,
        None => return Err(TicketingError::MathOverflow),
    };
    if used_supply > ticket_class.total_supply {
        return Err(TicketingError::InsufficientRemainingSupply);
    }
    ticket_class.reserved_supply = new_reserved;
    ticket_class.remaining_supply = ticket_class.total_supply - used_supply;
    ticket_class.updated_at = now;
    Ok(())
}

/// Law: every class leaves creation, redescription and reservation with its
/// inventory balanced (reserved, sold and on sale add up to the supply),
/// and a reservation moves tickets from sale to reserve one for one.
pub proof fn law_class_inventory_balanced(
    created: TicketClass,
    class_bump: u8,
    event_key: Key,
    class_id: u16,
    input: TicketClassInput,
    now: i64,
    c: TicketClass,
    amount: u32,
    event_account: EventAccount,
)
    ensures
        ticket_class_input_error(input) is None && is_new_ticket_class(
            created,
            class_bump,
            event_key,
            class_id,
            input,
            now,
        ) ==> created.supply_balanced(),
        update_ticket_class_error(event_account, c, input, now) is None ==> (TicketClass {
            total_supply: input.total_supply,
            reserved_supply: input.reserved_supply,
            remaining_supply: (input.total_supply - (input.reserved_supply + c.sold_supply)) as u32,
            ..c
        }).supply_balanced(),
        reserve_inventory_error(event_account, c, amount) is None && c.supply_balanced() ==> {
            let after = TicketClass {
                reserved_supply: (c.reserved_supply + amount) as u32,
                remaining_supply: (c.total_supply - (c.reserved_supply + amount
                    + c.sold_supply)) as u32,
                ..c
            };
            &&& after.supply_balanced()
            &&& after.remaining_supply + amount == c.remaining_supply
        },
{
}

} // verus!
