//! Ticket status transitions and metadata.

use vstd::prelude::*;

use crate::constants::MAX_TICKET_METADATA_URI_LEN;
use crate::error::TicketingError;
use crate::key::Key;
use crate::state::{
    ticket_status_of_code, ticket_transition_allowed, OrganizerProfile, ProtocolConfig, Ticket,
    TicketStatus,
};
use crate::text::{byte_len, text_len};

verus! {

/// Whether `authority` is the protocol admin or the organizer.
pub open spec fn admin_or_organizer(
    protocol_config: ProtocolConfig,
    organizer_profile: OrganizerProfile,
    authority: Key,
) -> bool {
    authority@ == protocol_config.admin@ || authority@ == organizer_profile.authority@
}

/// The first reason a status change is refused, if any.
pub open spec fn transition_ticket_status_error(
    protocol_config: ProtocolConfig,
    organizer_profile: OrganizerProfile,
    ticket: Ticket,
    authority: Key,
    next_status: u8,
) -> Option<TicketingError> {
    if protocol_config.is_paused {
        Some(TicketingError::ProtocolPaused)
    } else if !admin_or_organizer(protocol_config, organizer_profile, authority) {
        Some(TicketingError::Unauthorized)
    } else {
        match ticket_status_of_code(next_status) {
            None => Some(TicketingError::InvalidTicketStatus),
            Some(next) => if !ticket_transition_allowed(ticket.status, next) {
                Some(TicketingError::IllegalTicketStatusTransition)
            } else {
                None
            },
        }
    }
}

/// A ticket after a legal move to `next`: the first time it reaches
/// checked-in, refunded or invalidated is recorded, later ones keep it.
pub open spec fn ticket_after_transition(t: Ticket, next: TicketStatus, now: i64) -> Ticket {
    Ticket {
        status: next,
        status_updated_at: now,
        checked_in_at: if next == TicketStatus::CheckedIn && t.checked_in_at == 0 {
            now
        } else {
            t.checked_in_at
        },
        refunded_at: if next == TicketStatus::Refunded && t.refunded_at == 0 {
            now
        } else {
            t.refunded_at
        },
        invalidated_at: if next == TicketStatus::Invalidated && t.invalidated_at == 0 {
            now
        } else {
            t.invalidated_at
        },
        ..t
    }
}

/// The organizer or the protocol admin moves a ticket to another status,
/// along the legal transitions only.
///
/// Refused for the first reason of `transition_ticket_status_error`, the
/// ticket unchanged. Otherwise returns the previous status.
pub fn transition_ticket_status(
    protocol_config: &ProtocolConfig,
    organizer_profile: &OrganizerProfile,
    ticket: &mut Ticket,
    authority: &Key,
    next_status: u8,
    now: i64,
) -> (r: Result<TicketStatus, TicketingError>)
    ensures
        ({
            let err = transition_ticket_status_error(
                *protocol_config,
                *organizer_profile,
                *old(ticket),
                *authority,
                next_status,
            );
            &&& err is Some ==> r == Err::<TicketStatus, TicketingError>(err.unwrap()) && *final(ticket) == *old(ticket)
            &&& err is None ==> r == Ok::<TicketStatus, TicketingError>(old(ticket).status)
                && *final(ticket) == ticket_after_transition(
                *old(ticket),
                ticket_status_of_code(next_status).unwrap(),
                now,
            )
        }),
{
    if protocol_config.is_paused {
        return Err(TicketingError::ProtocolPaused);
    }
    if !(authority.same(&protocol_config.admin) || authority.same(&organizer_profile.authority)) {
        return Err(TicketingError::Unauthorized);
    }
    let next = TicketStatus::from_u8(next_status)?;
    let old_status = ticket.status;
    if !old_status.can_transition_to(next) {
        return Err(TicketingError::IllegalTicketStatusTransition);
    }
    ticket.status = next;
    ticket.status_updated_at = now;
    match next {
        TicketStatus::CheckedIn => {
            if ticket.checked_in_at == 0 {
                ticket.checked_in_at = now;
            }
        },
        TicketStatus::Refunded => {
            if ticket.refunded_at == 0 {
                ticket.refunded_at = now;
            }
        },
        TicketStatus::Invalidated => {
            if ticket.invalidated_at == 0 {
                ticket.invalidated_at = now;
            }
        },
        TicketStatus::Active => {},
    }
    Ok(old_status)
}

/// Law: refunded and invalidated tickets are final, and no ticket ever goes
/// back to active: no status change out of a final status, or into active,
/// is accepted.
pub proof fn law_ticket_status_never_regresses(
    protocol_config: ProtocolConfig,
    organizer_profile: OrganizerProfile,
    ticket: Ticket,
    authority: Key,
    next_status: u8,
)
    requires
        transition_ticket_status_error(
            protocol_config,
            organizer_profile,
            ticket,
            authority,
            next_status,
        ) is None,
    ensures
        ticket.status != TicketStatus::Refunded,
        ticket.status != TicketStatus::Invalidated,
        ticket_status_of_code(next_status) != Some(TicketStatus::Active),
        ticket_status_of_code(next_status) != Some(ticket.status),
{
}

/// The first reason a metadata update is refused, if any.
pub open spec fn set_ticket_metadata_error(
    protocol_config: ProtocolConfig,
    organizer_profile: OrganizerProfile,
    authority: Key,
    metadata_uri: Seq<char>,
) -> Option<TicketingError> {
    if protocol_config.is_paused {
        Some(TicketingError::ProtocolPaused)
    } else if byte_len(metadata_uri) > MAX_TICKET_METADATA_URI_LEN {
        Some(TicketingError::InvalidTicketMetadataUriLength)
    } else if !admin_or_organizer(protocol_config, organizer_profile, authority) {
        Some(TicketingError::Unauthorized)
    } else {
        None
    }
}

/// The organizer or the protocol admin sets a ticket's metadata URI and
/// version.
///
/// Refused for the first reason of `set_ticket_metadata_error`, the ticket
/// unchanged.
pub fn set_ticket_metadata(
    protocol_config: &ProtocolConfig,
    organizer_profile: &OrganizerProfile,
    ticket: &mut Ticket,
    authority: &Key,
    metadata_uri: String,
    metadata_version: u16,
    now: i64,
) -> (r: Result<(), TicketingError>)
    ensures
        ({
            let err = set_ticket_metadata_error(
                *protocol_config,
                *organizer_profile,
                *authority,
                metadata_uri@,
            );
            &&& err is Some ==> r == Err::<(), TicketingError>(err.unwrap()) && *final(ticket)
                == *old(ticket)
            &&& err is None ==> r is Ok && final(ticket).metadata_uri@ == metadata_uri@ && *final(ticket) == (Ticket {
                metadata_uri: final(ticket).metadata_uri,
                metadata_version,
                metadata_updated_at: now,
                ..*old(ticket)
            })
        }),
{
    if protocol_config.is_paused {
        return Err(TicketingError::ProtocolPaused);
    }
    if text_len(&metadata_uri) > MAX_TICKET_METADATA_URI_LEN {
        return Err(TicketingError::InvalidTicketMetadataUriLength);
    }
    if !(authority.same(&protocol_config.admin) || authority.same(&organizer_profile.authority)) {
        return Err(TicketingError::Unauthorized);
    }
    ticket.metadata_uri = metadata_uri;
    ticket.metadata_version = metadata_version;
    ticket.metadata_updated_at = now;
    Ok(())
}

} // verus!
