//! Refunds of tickets and dispute or chargeback marks.

use vstd::prelude::*;

use crate::error::TicketingError;
use crate::key::Key;
use crate::state::{OrganizerProfile, ProtocolConfig, Ticket, TicketClass, TicketStatus};

verus! {

/// Where the lamports of a refund come from.
#[derive(Clone, Copy, Debug, PartialEq, Eq, Structural)]
pub enum RefundSource {
    OrganizerVault,
    EscrowVault,
    ReserveVault,
}

/// The refund source a number stands for, if any.
pub open spec fn refund_source_of_code(v: u8) -> Option<RefundSource> {
    if v == 1 {
        Some(RefundSource::OrganizerVault)
    } else if v == 2 {
        Some(RefundSource::EscrowVault)
    } else if v == 3 {
        Some(RefundSource::ReserveVault)
    } else {
        None
    }
}

impl RefundSource {
    /// The refund source a number stands for; refused with
    /// `InvalidRefundSource` for any other number.
    pub fn from_u8(value: u8) -> (r: Result<RefundSource, TicketingError>)
        ensures
            match refund_source_of_code(value) {
                Some(s) => r == Ok::<RefundSource, TicketingError>(s),
                None => r == Err::<RefundSource, TicketingError>(
                    TicketingError::InvalidRefundSource,
                ),
            },
    {
        if value == 1 {
            Ok(RefundSource::OrganizerVault)
        } else if value == 2 {
            Ok(RefundSource::EscrowVault)
        } else if value == 3 {
            Ok(RefundSource::ReserveVault)
        } else {
            Err(TicketingError::InvalidRefundSource)
        }
    }
}

/// The three vaults a refund may be paid from, as offered.
#[derive(Clone, Copy, Debug)]
pub struct RefundVaults {
    pub organizer_vault: Key,
    pub escrow_vault: Key,
    pub reserve_vault: Key,
}

/// The account a refund source must be: the organizer's payout wallet, the
/// protocol treasury vault, or the protocol fee vault.
pub open spec fn expected_source_account(
    source: RefundSource,
    protocol_config: ProtocolConfig,
    organizer_profile: OrganizerProfile,
) -> Key {
    match source {
        RefundSource::OrganizerVault => organizer_profile.payout_wallet,
        RefundSource::EscrowVault => protocol_config.treasury_vault,
        RefundSource::ReserveVault => protocol_config.fee_vault,
    }
}

/// The vault offered for a refund source.
pub open spec fn offered_source_account(source: RefundSource, vaults: RefundVaults) -> Key {
    match source {
        RefundSource::OrganizerVault => vaults.organizer_vault,
        RefundSource::EscrowVault => vaults.escrow_vault,
        RefundSource::ReserveVault => vaults.reserve_vault,
    }
}

/// The first reason a refund is refused, if any.
pub open spec fn refund_ticket_error(
    protocol_config: ProtocolConfig,
    organizer_profile: OrganizerProfile,
    ticket_class: TicketClass,
    ticket: Ticket,
    authority: Key,
    vaults: RefundVaults,
    amount_lamports: u64,
    source: u8,
) -> Option<TicketingError> {
    if protocol_config.is_paused {
        Some(TicketingError::ProtocolPaused)
    } else if !(authority@ == protocol_config.admin@ || authority@
        == organizer_profile.authority@) {
        Some(TicketingError::Unauthorized)
    } else if ticket.status != TicketStatus::Active {
        Some(TicketingError::RefundNotAllowed)
    } else if !(amount_lamports > 0 && amount_lamports <= ticket.paid_amount_lamports) {
        Some(TicketingError::InvalidRefundAmount)
    } else {
        match refund_source_of_code(source) {
            None => Some(TicketingError::InvalidRefundSource),
            Some(s) => if offered_source_account(s, vaults)@ != expected_source_account(
                s,
                protocol_config,
                organizer_profile,
            )@ {
                Some(TicketingError::InvalidRefundSource)
            } else if ticket.refunded_at == 0 && ticket_class.refunded_supply == u32::MAX {
                Some(TicketingError::MathOverflow)
            } else {
                None
            },
        }
    }
}

/// The organizer or the protocol admin refunds part or all of what was paid
/// for an active ticket, from one of three vaults. The ticket becomes
/// refunded and goes back to its buyer; the class counts it as refunded the
/// first time only.
///
/// Refused for the first reason of `refund_ticket_error`, with the class
/// and ticket unchanged. Otherwise returns the source to pay
/// `amount_lamports` from, to the ticket's owner.
pub fn refund_ticket(
    protocol_config: &ProtocolConfig,
    organizer_profile: &OrganizerProfile,
    ticket_class: &mut TicketClass,
    ticket: &mut Ticket,
    authority: &Key,
    vaults: &RefundVaults,
    amount_lamports: u64,
    source: u8,
    now: i64,
) -> (r: Result<RefundSource, TicketingError>)
    ensures
        ({
            let err = refund_ticket_error(
                *protocol_config,
                *organizer_profile,
                *old(ticket_class),
                *old(ticket),
                *authority,
                *vaults,
                amount_lamports,
                source,
            );
            let first = old(ticket).refunded_at == 0;
            &&& err is Some ==> r == Err::<RefundSource, TicketingError>(err.unwrap()) && *final(ticket_class) == *old(ticket_class) && *final(ticket) == *old(ticket)
            &&& err is None ==> r == Ok::<RefundSource, TicketingError>(
                refund_source_of_code(source).unwrap(),
            ) && *final(ticket_class) == (TicketClass {
                refunded_supply: if first {
                    (old(ticket_class).refunded_supply + 1) as u32
                } else {
                    old(ticket_class).refunded_supply
                },
                ..*old(ticket_class)
            }) && *final(ticket) == (Ticket {
                status: TicketStatus::Refunded,
                status_updated_at: now,
                refunded_at: if first {
                    now
                } else {
                    old(ticket).refunded_at
                },
                owner: old(ticket).buyer,
                refund_source: source,
                refund_amount_lamports: amount_lamports,
                dispute_updated_at: now,
                ..*old(ticket)
            })
        }),
{
    if protocol_config.is_paused {
        return Err(TicketingError::ProtocolPaused);
    }
    if !(authority.same(&protocol_config.admin) || authority.same(&organizer_profile.authority)) {
        return Err(TicketingError::Unauthorized);
    }
    match ticket.status {
        TicketStatus::Active => {},
        _ => return Err(TicketingError::RefundNotAllowed),
    }
    if !(amount_lamports > 0 && amount_lamports <= ticket.paid_amount_lamports) {
        return Err(TicketingError::InvalidRefundAmount);
    }
    let refund_source = RefundSource::from_u8(source)?;
    let source_ok = match refund_source {
        RefundSource::OrganizerVault => vaults.organizer_vault.same(&organizer_profile.payout_wallet),
        RefundSource::EscrowVault => vaults.escrow_vault.same(&protocol_config.treasury_vault),
        RefundSource::ReserveVault => vaults.reserve_vault.same(&protocol_config.fee_vault),
    };
    if !source_ok {
        return Err(TicketingError::InvalidRefundSource);
    }
    let first = ticket.refunded_at == 0;
    if first && ticket_class.refunded_supply == u32::MAX {
        return Err(TicketingError::MathOverflow);
    }
    ticket.status = TicketStatus::Refunded;
    ticket.status_updated_at = now;
    if first {
        ticket.refunded_at = now;
        ticket_class.refunded_supply = ticket_class.refunded_supply + 1;
    }
    ticket.owner = ticket.buyer;
    ticket.refund_source = source;
    ticket.refund_amount_lamports = amount_lamports;
    ticket.dispute_updated_at = now;
    Ok(refund_source)
}

/// Law: a refund is final. Once a ticket is refunded, every further refund
/// of it is refused, so the class counts it and pays it out at most once.
pub proof fn law_refund_is_final(
    protocol_config: ProtocolConfig,
    organizer_profile: OrganizerProfile,
    ticket_class: TicketClass,
    ticket: Ticket,
    authority: Key,
    vaults: RefundVaults,
    amount_lamports: u64,
    source: u8,
)
    requires
        ticket.status == TicketStatus::Refunded,
    ensures
        refund_ticket_error(
            protocol_config,
            organizer_profile,
            ticket_class,
            ticket,
            authority,
            vaults,
            amount_lamports,
            source,
        ) is Some,
{
}

/// The first reason a dispute update is refused, if any.
pub open spec fn flag_dispute_error(
    protocol_config: ProtocolConfig,
    organizer_profile: OrganizerProfile,
    authority: Key,
    is_disputed: bool,
    is_chargeback: bool,
) -> Option<TicketingError> {
    if protocol_config.is_paused {
        Some(TicketingError::ProtocolPaused)
    } else if !(authority@ == protocol_config.admin@ || authority@
        == organizer_profile.authority@) {
        Some(TicketingError::Unauthorized)
    } else if is_chargeback && !is_disputed {
        Some(TicketingError::ChargebackRequiresDispute)
    } else {
        None
    }
}

/// The organizer or the protocol admin marks a ticket disputed (or clears
/// the mark), possibly as a chargeback, with a reason code. A chargeback is
/// always a dispute. The time a dispute was first raised is kept.
///
/// Refused for the first reason of `flag_dispute_error`, the ticket
/// unchanged.
pub fn flag_dispute(
    protocol_config: &ProtocolConfig,
    organizer_profile: &OrganizerProfile,
    ticket: &mut Ticket,
    authority: &Key,
    is_disputed: bool,
    is_chargeback: bool,
    reason_code: u16,
    now: i64,
) -> (r: Result<(), TicketingError>)
    ensures
        ({
            let err = flag_dispute_error(
                *protocol_config,
                *organizer_profile,
                *authority,
                is_disputed,
                is_chargeback,
            );
            &&& err is Some ==> r == Err::<(), TicketingError>(err.unwrap()) && *final(ticket)
                == *old(ticket)
            &&& err is None ==> r is Ok && *final(ticket) == (Ticket {
                is_disputed,
                is_chargeback,
                dispute_reason_code: reason_code,
                disputed_at: if is_disputed && old(ticket).disputed_at == 0 {
                    now
                } else {
                    old(ticket).disputed_at
                },
                dispute_updated_at: now,
                ..*old(ticket)
            })
        }),
{
    if protocol_config.is_paused {
        return Err(TicketingError::ProtocolPaused);
    }
    if !(authority.same(&protocol_config.admin) || authority.same(&organizer_profile.authority)) {
        return Err(TicketingError::Unauthorized);
    }
    if is_chargeback && !is_disputed {
        return Err(TicketingError::ChargebackRequiresDispute);
    }
    ticket.is_disputed = is_disputed;
    ticket.is_chargeback = is_chargeback;
    ticket.dispute_reason_code = reason_code;
    if is_disputed && ticket.disputed_at == 0 {
        ticket.disputed_at = now;
    }
    ticket.dispute_updated_at = now;
    Ok(())
}

/// Law: an amount is refused as `InvalidRefundAmount` exactly when it is
/// zero or more than the ticket's buyer paid; in particular the whole price
/// paid may be refunded. A full refund from the escrow vault (the protocol
/// treasury) of an active ticket, by the organizer or the admin, succeeds and
/// is paid from the escrow vault.
pub proof fn law_refund_amount_within_price_paid(
    protocol_config: ProtocolConfig,
    organizer_profile: OrganizerProfile,
    ticket_class: TicketClass,
    ticket: Ticket,
    authority: Key,
    vaults: RefundVaults,
    amount_lamports: u64,
    source: u8,
)
    requires
        !protocol_config.is_paused,
        authority@ == protocol_config.admin@ || authority@ == organizer_profile.authority@,
        ticket.status == TicketStatus::Active,
    ensures
        (refund_ticket_error(
            protocol_config,
            organizer_profile,
            ticket_class,
            ticket,
            authority,
            vaults,
            amount_lamports,
            source,
        ) == Some(TicketingError::InvalidRefundAmount)) <==> !(0 < amount_lamports
            && amount_lamports <= ticket.paid_amount_lamports),
        amount_lamports == ticket.paid_amount_lamports && amount_lamports > 0 && source == 2
            && vaults.escrow_vault@ == protocol_config.treasury_vault@ && (ticket.refunded_at != 0
            || ticket_class.refunded_supply < u32::MAX) ==> refund_ticket_error(
            protocol_config,
            organizer_profile,
            ticket_class,
            ticket,
            authority,
            vaults,
            amount_lamports,
            source,
        ) is None && refund_source_of_code(source) == Some(RefundSource::EscrowVault),
{
}

} // verus!
