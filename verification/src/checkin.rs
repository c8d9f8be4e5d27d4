//! Gate check-in: the re-entry policy of a ticket class and the admission of
//! tickets by the organizer or its operators.

use vstd::prelude::*;

use crate::constants::{MAX_GATE_IDENTIFIER_LEN, OPERATOR_PERMISSION_CHECKIN};
use crate::error::TicketingError;
use crate::key::Key;
use crate::pda::{
    find_program_address, key_bytes, program_address, seed_organizer_operator, seeds3,
    spec_seed_organizer_operator,
};
use crate::state::{
    EventAccount, EventStatus, OrganizerOperator, ProtocolConfig, Ticket, TicketClass,
    TicketStatus,
};
use crate::text::{byte_len, text_is_empty, text_len};

verus! {

/// The organizer sets the re-entry policy of a ticket class while the event
/// is in draft or frozen. A re-entry allowance needs re-entry enabled.
///
/// Refused with `ProtocolPaused`, then `InvalidEventStatusTransition`, then
/// `ReentryNotAllowed`, with the class unchanged.
pub fn set_checkin_policy(
    protocol_config: &ProtocolConfig,
    event_account: &EventAccount,
    ticket_class: &mut TicketClass,
    allow_reentry: bool,
    max_reentries: u8,
    now: i64,
) -> (r: Result<(), TicketingError>)
    ensures
        protocol_config.is_paused ==> r == Err::<(), TicketingError>(TicketingError::ProtocolPaused),
        !protocol_config.is_paused && !(event_account.status == EventStatus::Draft
            || event_account.status == EventStatus::Frozen) ==> r == Err::<(), TicketingError>(
            TicketingError::InvalidEventStatusTransition,
        ),
        !protocol_config.is_paused && (event_account.status == EventStatus::Draft
            || event_account.status == EventStatus::Frozen) && !allow_reentry && max_reentries != 0
            ==> r == Err::<(), TicketingError>(TicketingError::ReentryNotAllowed),
        !protocol_config.is_paused && (event_account.status == EventStatus::Draft
            || event_account.status == EventStatus::Frozen) && (allow_reentry || max_reentries
            == 0) ==> r is Ok,
        r is Err ==> *final(ticket_class) == *old(ticket_class),
        r is Ok ==> !protocol_config.is_paused && (event_account.status == EventStatus::Draft
            || event_account.status == EventStatus::Frozen) && (allow_reentry || max_reentries
            == 0) && *final(ticket_class) == (TicketClass {
            allow_reentry,
            max_reentries,
            updated_at: now,
            ..*old(ticket_class)
        }),
{
    if protocol_config.is_paused {
        return Err(TicketingError::ProtocolPaused);
    }
    if !event_account.status.is_open() {
        return Err(TicketingError::InvalidEventStatusTransition);
    }
    if !(allow_reentry || max_reentries == 0) {
        return Err(TicketingError::ReentryNotAllowed);
    }
    ticket_class.allow_reentry = allow_reentry;
    ticket_class.max_reentries = max_reentries;
    ticket_class.updated_at = now;
    Ok(())
}

/// The address of the operator record of `scanner` for an organizer.
pub open spec fn operator_address(organizer_profile: Key, scanner: Key, program_id: Key) -> Option<
    (Seq<u8>, u8),
> {
    program_address(
        seq![spec_seed_organizer_operator(), organizer_profile@, scanner@],
        program_id@,
    )
}

/// Who is scanning, and the operator record offered for them.
#[derive(Clone, Debug)]
pub struct ScannerProof {
    pub scanner: Key,
    pub organizer_profile_key: Key,
    pub operator_key: Key,
    /// The operator account's contents, when it holds an operator record.
    pub operator: Option<OrganizerOperator>,
    pub program_id: Key,
}

/// Whether the scanner may check tickets in: it is the organizer itself, or
/// an active operator of the organizer with the check-in permission. The
/// operator account offered must be the scanner's operator address, else
/// the scan is refused with `Unauthorized`.
pub open spec fn spec_authorized_scanner(
    organizer_authority: Key,
    proof_scanner: ScannerProof,
) -> Result<bool, TicketingError> {
    if proof_scanner.scanner@ == organizer_authority@ {
        Ok(true)
    } else {
        match operator_address(
            proof_scanner.organizer_profile_key,
            proof_scanner.scanner,
            proof_scanner.program_id,
        ) {
            None => Err(TicketingError::ProgramAddressNotFound),
            Some(found) => if proof_scanner.operator_key@ != found.0 {
                Err(TicketingError::Unauthorized)
            } else {
                match proof_scanner.operator {
                    None => Ok(false),
                    Some(op) => Ok(
                        op.active && op.operator@ == proof_scanner.scanner@ && (op.permissions
                            & OPERATOR_PERMISSION_CHECKIN) != 0,
                    ),
                }
            },
        }
    }
}

/// Whether the scanner may check tickets in.
pub fn is_authorized_scanner(organizer_authority: &Key, proof_scanner: &ScannerProof) -> (r: Result<
    bool,
    TicketingError,
>)
    ensures
        r == spec_authorized_scanner(*organizer_authority, *proof_scanner),
{
    if proof_scanner.scanner.same(organizer_authority) {
        return Ok(true);
    }
    let seeds = seeds3(
        seed_organizer_operator(),
        key_bytes(&proof_scanner.organizer_profile_key),
        key_bytes(&proof_scanner.scanner),
    );
    let expected = match find_program_address(&seeds, &proof_scanner.program_id) {
        Some(found) => found.0,
        None => return Err(TicketingError::ProgramAddressNotFound),
    };
    if !proof_scanner.operator_key.same(&expected) {
        return Err(TicketingError::Unauthorized);
    }
    match &proof_scanner.operator {
        None => Ok(false),
        Some(op) => Ok(
            op.active && op.operator.same(&proof_scanner.scanner) && (op.permissions
                & OPERATOR_PERMISSION_CHECKIN) != 0,
        ),
    }
}

/// The first reason a check-in is refused, if any.
pub open spec fn check_in_error(
    protocol_config: ProtocolConfig,
    event_account: EventAccount,
    ticket_class: TicketClass,
    ticket: Ticket,
    organizer_authority: Key,
    proof_scanner: ScannerProof,
    gate_identifier: Seq<char>,
) -> Option<TicketingError> {
    if protocol_config.is_paused {
        Some(TicketingError::ProtocolPaused)
    } else if !(event_account.status == EventStatus::Draft || event_account.status
        == EventStatus::Frozen) {
        Some(TicketingError::InvalidEventStatusTransition)
    } else if gate_identifier.len() == 0 || byte_len(gate_identifier) > MAX_GATE_IDENTIFIER_LEN {
        Some(TicketingError::InvalidGateIdentifier)
    } else {
        match spec_authorized_scanner(organizer_authority, proof_scanner) {
            Err(e) => Some(e),
            Ok(false) => Some(TicketingError::Unauthorized),
            Ok(true) => if ticket.status == TicketStatus::Refunded || ticket.status
                == TicketStatus::Invalidated {
                Some(TicketingError::IllegalTicketStatusTransition)
            } else if ticket.check_in_count > 0 && !ticket_class.allow_reentry {
                Some(TicketingError::TicketAlreadyCheckedIn)
            } else if ticket.check_in_count > 0 && ticket.check_in_count - 1
                >= ticket_class.max_reentries {
                Some(TicketingError::ReentryLimitExceeded)
            } else if ticket.check_in_count == u16::MAX {
                Some(TicketingError::MathOverflow)
            } else {
                None
            },
        }
    }
}

/// Admits a ticket at a gate. The organizer or one of its check-in
/// operators scans it; a ticket already admitted comes back in only as a
/// re-entry, within the class's allowance.
///
/// Refused, with the ticket unchanged, for the first reason of
/// `check_in_error`. Otherwise returns whether this was a re-entry; the
/// ticket is checked in now at this gate, with one more admission counted
/// and its first check-in time kept.
pub fn check_in_ticket(
    protocol_config: &ProtocolConfig,
    event_account: &EventAccount,
    ticket_class: &TicketClass,
    ticket: &mut Ticket,
    organizer_authority: &Key,
    proof_scanner: &ScannerProof,
    gate_identifier: String,
    now: i64,
) -> (r: Result<bool, TicketingError>)
    ensures
        ({
            let err = check_in_error(
                *protocol_config,
                *event_account,
                *ticket_class,
                *old(ticket),
                *organizer_authority,
                *proof_scanner,
                gate_identifier@,
            );
            &&& err is Some ==> r == Err::<bool, TicketingError>(err.unwrap()) && *final(ticket)
                == *old(ticket)
            &&& err is None ==> r == Ok::<bool, TicketingError>(old(ticket).check_in_count > 0)
                && final(ticket).last_check_in_gate_id@ == gate_identifier@ && *final(ticket) == (
            Ticket {
                status: TicketStatus::CheckedIn,
                status_updated_at: now,
                checked_in_at: if old(ticket).checked_in_at == 0 {
                    now
                } else {
                    old(ticket).checked_in_at
                },
                last_check_in_at: now,
                last_check_in_gate_id: final(ticket).last_check_in_gate_id,
                check_in_count: (old(ticket).check_in_count + 1) as u16,
                ..*old(ticket)
            })
        }),
{
    if protocol_config.is_paused {
        return Err(TicketingError::ProtocolPaused);
    }
    if !event_account.status.is_open() {
        return Err(TicketingError::InvalidEventStatusTransition);
    }
    if text_is_empty(&gate_identifier) || text_len(&gate_identifier) > MAX_GATE_IDENTIFIER_LEN {
        return Err(TicketingError::InvalidGateIdentifier);
    }
    let ok = is_authorized_scanner(organizer_authority, proof_scanner)?;
    if !ok {
        return Err(TicketingError::Unauthorized);
    }
    match ticket.status {
        TicketStatus::Refunded => return Err(TicketingError::IllegalTicketStatusTransition),
        TicketStatus::Invalidated => return Err(TicketingError::IllegalTicketStatusTransition),
        _ => {},
    }
    let is_reentry = ticket.check_in_count > 0;
    if is_reentry {
        if !ticket_class.allow_reentry {
            return Err(TicketingError::TicketAlreadyCheckedIn);
        }
        let reentries_used = ticket.check_in_count - 1;
        if reentries_used >= ticket_class.max_reentries as u16 {
            return Err(TicketingError::ReentryLimitExceeded);
        }
    }
    if ticket.check_in_count == u16::MAX {
        return Err(TicketingError::MathOverflow);
    }
    ticket.status = TicketStatus::CheckedIn;
    ticket.status_updated_at = now;
    if ticket.checked_in_at == 0 {
        ticket.checked_in_at = now;
    }
    ticket.last_check_in_at = now;
    ticket.last_check_in_gate_id = gate_identifier;
    ticket.check_in_count = ticket.check_in_count + 1;
    Ok(is_reentry)
}

/// Law: a ticket is admitted at most once plus the class's re-entry
/// allowance, and exactly once when re-entry is off.
pub proof fn law_admissions_bounded_by_reentry_policy(
    protocol_config: ProtocolConfig,
    event_account: EventAccount,
    ticket_class: TicketClass,
    ticket: Ticket,
    organizer_authority: Key,
    proof_scanner: ScannerProof,
    gate_identifier: Seq<char>,
)
    requires
        check_in_error(
            protocol_config,
            event_account,
            ticket_class,
            ticket,
            organizer_authority,
            proof_scanner,
            gate_identifier,
        ) is None,
    ensures
        ticket.check_in_count + 1 <= ticket_class.max_reentries + 1,
        !ticket_class.allow_reentry ==> ticket.check_in_count == 0,
{
}

/// Law: the operator record a check-in accepts is the one at the program
/// address of the seeds "organizer_operator", the organizer profile and the
/// operator, in that order (where `set_organizer_operator` writes it). A
/// scanner other than the organizer, offering the record at that address,
/// written for it as an active operator with the check-in permission, is
/// authorized; offering any other account is refused as `Unauthorized`.
pub proof fn law_operator_record_is_found_at_its_address(
    organizer_authority: Key,
    proof_scanner: ScannerProof,
    address: Seq<u8>,
    bump: u8,
    operator_bump: u8,
    permissions: u32,
    written_at: i64,
)
    requires
        proof_scanner.scanner@ != organizer_authority@,
        program_address(
            seq![
                seq![111u8, 114, 103, 97, 110, 105, 122, 101, 114, 95, 111, 112, 101, 114, 97, 116, 111, 114],
                proof_scanner.organizer_profile_key@,
                proof_scanner.scanner@,
            ],
            proof_scanner.program_id@,
        ) == Some((address, bump)),
    ensures
        proof_scanner.operator_key@ != address ==> spec_authorized_scanner(
            organizer_authority,
            proof_scanner,
        ) == Err::<bool, TicketingError>(TicketingError::Unauthorized),
        proof_scanner.operator_key@ == address && permissions & 1 != 0 && proof_scanner.operator
            == Some(
            OrganizerOperator {
                bump: operator_bump,
                organizer: proof_scanner.organizer_profile_key,
                operator: proof_scanner.scanner,
                permissions,
                active: true,
                updated_at: written_at,
            },
        ) ==> spec_authorized_scanner(organizer_authority, proof_scanner) == Ok::<
            bool,
            TicketingError,
        >(true),
{
    assert(spec_seed_organizer_operator() =~= seq![111u8, 114, 103, 97, 110, 105, 122, 101, 114, 95, 111, 112, 101, 114, 97, 116, 111, 114]);
}

} // verus!
