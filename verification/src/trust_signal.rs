//! Trust signals of wallets: purchases, attendance, abuse flags and schema
//! versions.

use vstd::prelude::*;

use crate::constants::MAX_TRUST_FLAG_BITS;
use crate::error::TicketingError;
use crate::key::{zero_key, Key};
use crate::state::{ProtocolConfig, Ticket, TrustSignal};

verus! {

/// The number of set bits among the lowest `n` bits of `x`.
pub open spec fn ones_below(x: u32, n: nat) -> nat
    decreases n,
{
    if n == 0 {
        0
    } else {
        ones_below(x, (n - 1) as nat) + if (x >> ((n - 1) as u32)) & 1u32 == 1u32 {
            1nat
        } else {
            0nat
        }
    }
}

/// The number of set bits of `x`.
pub open spec fn ones(x: u32) -> nat {
    ones_below(x, 32)
}

/// Counts the set bits of a word.
pub fn count_set_bits(x: u32) -> (n: u32)
    ensures
        n == ones(x),
        n <= 32,
{
    let mut n: u32 = 0;
    let mut i: u32 = 0;
    while i < 32
        invariant
            i <= 32,
            n == ones_below(x, i as nat),
            n <= i,
        decreases 32 - i,
    {
        let bit: u32 = (x >> i) & 1u32;
        assert(bit == 0u32 || bit == 1u32) by (bit_vector)
            requires
                bit == (x >> i) & 1u32,
        ;
        n = n + bit;
        i = i + 1;
    }
    n
}

/// The signal a handler starts from: a signal account not yet set up gets
/// its bump and wallet, the first schema version, zero counts and the
/// creation time.
pub open spec fn opened_signal(s: TrustSignal, signal_bump: u8, wallet: Key, now: i64) -> TrustSignal {
    if s.wallet@ == zero_key() {
        TrustSignal {
            bump: signal_bump,
            wallet,
            schema_version: 1,
            total_tickets_purchased: 0,
            attendance_eligible_count: 0,
            attendance_attended_count: 0,
            abuse_flags: 0,
            abuse_incidents: 0,
            created_at: now,
            ..s
        }
    } else {
        s
    }
}

/// The last ticket recorded on the signal a handler starts from (none, the
/// zero address, for a signal being set up).
pub open spec fn opened_last_ticket(s: TrustSignal) -> Seq<u8> {
    if s.wallet@ == zero_key() {
        zero_key()
    } else {
        s.last_ticket@
    }
}

/// Sets up a signal account on first use.
fn open_signal(signal: &mut TrustSignal, signal_bump: u8, wallet: &Key, now: i64)
    ensures
        *final(signal) == (TrustSignal {
            last_event: final(signal).last_event,
            last_ticket: final(signal).last_ticket,
            ..opened_signal(*old(signal), signal_bump, *wallet, now)
        }),
{
    if signal.wallet.is_zero() {
        signal.bump = signal_bump;
        signal.wallet = *wallet;
        signal.schema_version = 1;
        signal.total_tickets_purchased = 0;
        signal.attendance_eligible_count = 0;
        signal.attendance_attended_count = 0;
        signal.abuse_flags = 0;
        signal.abuse_incidents = 0;
        signal.last_event = Key::zero();
        signal.last_ticket = Key::zero();
        signal.created_at = now;
    }
}

/// The first reason recording a purchase is refused, if any.
pub open spec fn record_purchase_input_error(
    protocol_config: ProtocolConfig,
    ticket_key: Key,
    ticket: Ticket,
    signal: TrustSignal,
) -> Option<TicketingError> {
    if protocol_config.is_paused {
        Some(TicketingError::ProtocolPaused)
    } else if ticket.purchase_trust_recorded {
        Some(TicketingError::TrustSignalAlreadyRecorded)
    } else if opened_last_ticket(signal) == ticket_key@ {
        Some(TicketingError::TrustSignalAlreadyRecorded)
    } else if signal.wallet@ != zero_key() && signal.total_tickets_purchased == u32::MAX {
        Some(TicketingError::MathOverflow)
    } else {
        None
    }
}

/// The organizer records the purchase of a ticket in its buyer's trust
/// signal, once per ticket.
///
/// Refused for the first reason of `record_purchase_input_error`, with the
/// ticket and signal unchanged. Otherwise one more purchase is counted, the
/// event and ticket are recorded as the last seen, and the ticket is marked
/// as recorded.
pub fn record_purchase_input(
    protocol_config: &ProtocolConfig,
    event_key: &Key,
    ticket_key: &Key,
    ticket: &mut Ticket,
    signal: &mut TrustSignal,
    signal_bump: u8,
    wallet: &Key,
    now: i64,
) -> (r: Result<(), TicketingError>)
    ensures
        ({
            let err = record_purchase_input_error(
                *protocol_config,
                *ticket_key,
                *old(ticket),
                *old(signal),
            );
            let opened = opened_signal(*old(signal), signal_bump, *wallet, now);
            &&& err is Some ==> r == Err::<(), TicketingError>(err.unwrap()) && *final(ticket)
                == *old(ticket) && *final(signal) == *old(signal)
            &&& err is None ==> r is Ok && *final(ticket) == (Ticket {
                purchase_trust_recorded: true,
                ..*old(ticket)
            }) && *final(signal) == (TrustSignal {
                total_tickets_purchased: (opened.total_tickets_purchased + 1) as u32,
                last_event: *event_key,
                last_ticket: *ticket_key,
                updated_at: now,
                ..opened
            })
        }),
{
    if protocol_config.is_paused {
        return Err(TicketingError::ProtocolPaused);
    }
    if ticket.purchase_trust_recorded {
        return Err(TicketingError::TrustSignalAlreadyRecorded);
    }
    let fresh = signal.wallet.is_zero();
    if fresh {
        if ticket_key.is_zero() {
            return Err(TicketingError::TrustSignalAlreadyRecorded);
        }
    } else {
        if signal.last_ticket.same(ticket_key) {
            return Err(TicketingError::TrustSignalAlreadyRecorded);
        }
        if signal.total_tickets_purchased == u32::MAX {
            return Err(TicketingError::MathOverflow);
        }
    }
    open_signal(signal, signal_bump, wallet, now);
    signal.total_tickets_purchased = signal.total_tickets_purchased + 1;
    signal.last_event = *event_key;
    signal.last_ticket = *ticket_key;
    signal.updated_at = now;
    ticket.purchase_trust_recorded = true;
    Ok(())
}

/// The first reason recording attendance is refused, if any.
pub open spec fn record_attendance_input_error(
    protocol_config: ProtocolConfig,
    ticket: Ticket,
    signal: TrustSignal,
    did_attend: bool,
) -> Option<TicketingError> {
    if protocol_config.is_paused {
        Some(TicketingError::ProtocolPaused)
    } else if ticket.attendance_trust_recorded {
        Some(TicketingError::TrustSignalAlreadyRecorded)
    } else if signal.wallet@ != zero_key() && (signal.attendance_eligible_count == u32::MAX || (
    did_attend && signal.attendance_attended_count == u32::MAX)) {
        Some(TicketingError::MathOverflow)
    } else {
        None
    }
}

/// The organizer records, once per ticket, whether its holder attended: the
/// ticket counts as an attendance opportunity, and as an attendance when
/// the holder came.
///
/// Refused for the first reason of `record_attendance_input_error`, with
/// the ticket and signal unchanged.
pub fn record_attendance_input(
    protocol_config: &ProtocolConfig,
    event_key: &Key,
    ticket_key: &Key,
    ticket: &mut Ticket,
    signal: &mut TrustSignal,
    signal_bump: u8,
    wallet: &Key,
    did_attend: bool,
    now: i64,
) -> (r: Result<(), TicketingError>)
    ensures
        ({
            let err = record_attendance_input_error(
                *protocol_config,
                *old(ticket),
                *old(signal),
                did_attend,
            );
            let opened = opened_signal(*old(signal), signal_bump, *wallet, now);
            &&& err is Some ==> r == Err::<(), TicketingError>(err.unwrap()) && *final(ticket)
                == *old(ticket) && *final(signal) == *old(signal)
            &&& err is None ==> r is Ok && *final(ticket) == (Ticket {
                attendance_trust_recorded: true,
                ..*old(ticket)
            }) && *final(signal) == (TrustSignal {
                attendance_eligible_count: (opened.attendance_eligible_count + 1) as u32,
                attendance_attended_count: if did_attend {
                    (opened.attendance_attended_count + 1) as u32
                } else {
                    opened.attendance_attended_count
                },
                last_event: *event_key,
                last_ticket: *ticket_key,
                updated_at: now,
                ..opened
            })
        }),
{
    if protocol_config.is_paused {
        return Err(TicketingError::ProtocolPaused);
    }
    if ticket.attendance_trust_recorded {
        return Err(TicketingError::TrustSignalAlreadyRecorded);
    }
    if !signal.wallet.is_zero() {
        if signal.attendance_eligible_count == u32::MAX || (did_attend
            && signal.attendance_attended_count == u32::MAX) {
            return Err(TicketingError::MathOverflow);
        }
    }
    open_signal(signal, signal_bump, wallet, now);
    signal.attendance_eligible_count = signal.attendance_eligible_count + 1;
    if did_attend {
        signal.attendance_attended_count = signal.attendance_attended_count + 1;
    }
    signal.last_event = *event_key;
    signal.last_ticket = *ticket_key;
    signal.updated_at = now;
    ticket.attendance_trust_recorded = true;
    Ok(())
}

/// The first reason raising abuse flags is refused, if any.
pub open spec fn flag_abuse_error(signal: TrustSignal, flag_bits: u32) -> Option<TicketingError> {
    if flag_bits == 0 || flag_bits > MAX_TRUST_FLAG_BITS {
        Some(TicketingError::InvalidTrustFlagBits)
    } else if signal.wallet@ != zero_key() && signal.abuse_incidents + ones(
        flag_bits & !signal.abuse_flags,
    ) > u16::MAX {
        Some(TicketingError::MathOverflow)
    } else {
        None
    }
}

/// The admin raises abuse flags on a wallet's trust signal. The flags are
/// added to those already raised, and each flag raised for the first time
/// counts as one incident.
///
/// Refused for the first reason of `flag_abuse_error`, with the signal
/// unchanged.
pub fn flag_abuse(
    signal: &mut TrustSignal,
    signal_bump: u8,
    wallet: &Key,
    flag_bits: u32,
    event: &Key,
    ticket: &Key,
    now: i64,
) -> (r: Result<(), TicketingError>)
    ensures
        ({
            let err = flag_abuse_error(*old(signal), flag_bits);
            let opened = opened_signal(*old(signal), signal_bump, *wallet, now);
            &&& err is Some ==> r == Err::<(), TicketingError>(err.unwrap()) && *final(signal)
                == *old(signal)
            &&& err is None ==> r is Ok && *final(signal) == (TrustSignal {
                abuse_flags: opened.abuse_flags | flag_bits,
                abuse_incidents: (opened.abuse_incidents + ones(flag_bits & !opened.abuse_flags))
                    as u16,
                last_event: *event,
                last_ticket: *ticket,
                updated_at: now,
                ..opened
            })
        }),
{
    if flag_bits == 0 || flag_bits > MAX_TRUST_FLAG_BITS {
        return Err(TicketingError::InvalidTrustFlagBits);
    }
    if !signal.wallet.is_zero() {
        let fresh_bits: u32 = count_set_bits(flag_bits & !signal.abuse_flags);
        if signal.abuse_incidents as u32 + fresh_bits > u16::MAX as u32 {
            return Err(TicketingError::MathOverflow);
        }
    }
    open_signal(signal, signal_bump, wallet, now);
    let new_bits: u32 = count_set_bits(flag_bits & !signal.abuse_flags);
    signal.abuse_flags = signal.abuse_flags | flag_bits;
    signal.abuse_incidents = (signal.abuse_incidents as u32 + new_bits) as u16;
    signal.last_event = *event;
    signal.last_ticket = *ticket;
    signal.updated_at = now;
    Ok(())
}

/// No bit of zero is set.
proof fn lemma_ones_of_zero(n: nat)
    requires
        n <= 32,
    ensures
        ones_below(0u32, n) == 0,
    decreases n,
{
    if n > 0 {
        lemma_ones_of_zero((n - 1) as nat);
        let k: u32 = (n - 1) as u32;
        assert((0u32 >> k) & 1u32 == 0u32) by (bit_vector);
    }
}

/// Law: abuse flags only accumulate (every flag raised before stays
/// raised), and raising flags that are all already raised counts no new
/// incident.
pub proof fn law_abuse_flags_accumulate(old_flags: u32, flag_bits: u32)
    ensures
        (old_flags | flag_bits) & old_flags == old_flags,
        (old_flags | flag_bits) & flag_bits == flag_bits,
        (flag_bits & old_flags) == flag_bits ==> ones(flag_bits & !old_flags) == 0,
{
    assert((old_flags | flag_bits) & old_flags == old_flags) by (bit_vector);
    assert((old_flags | flag_bits) & flag_bits == flag_bits) by (bit_vector);
    assert((flag_bits & old_flags) == flag_bits ==> (flag_bits & !old_flags) == 0u32)
        by (bit_vector);
    lemma_ones_of_zero(32);
}

/// Law: a ticket's purchase is recorded in the trust signal at most once.
pub proof fn law_purchase_recorded_once(
    protocol_config: ProtocolConfig,
    ticket_key: Key,
    ticket: Ticket,
    signal: TrustSignal,
)
    requires
        ticket.purchase_trust_recorded,
    ensures
        record_purchase_input_error(protocol_config, ticket_key, ticket, signal) is Some,
{
}

/// The first reason a schema version change is refused, if any.
pub open spec fn set_schema_version_error(signal: TrustSignal, new_schema_version: u16) -> Option<
    TicketingError,
> {
    if new_schema_version == 0 || new_schema_version <= signal.schema_version {
        Some(TicketingError::InvalidTrustSchemaVersion)
    } else {
        None
    }
}

/// The admin moves a trust signal to a later schema version. Refused with
/// `InvalidTrustSchemaVersion`, the signal unchanged, unless the new
/// version is positive and above the current one. Returns the previous
/// version.
pub fn set_schema_version(signal: &mut TrustSignal, new_schema_version: u16, now: i64) -> (r:
    Result<u16, TicketingError>)
    ensures
        ({
            let err = set_schema_version_error(*old(signal), new_schema_version);
            &&& err is Some ==> r == Err::<u16, TicketingError>(err.unwrap()) && *final(signal)
                == *old(signal)
            &&& err is None ==> r == Ok::<u16, TicketingError>(old(signal).schema_version)
                && *final(signal) == (TrustSignal {
                schema_version: new_schema_version,
                updated_at: now,
                ..*old(signal)
            })
        }),
{
    let old_schema_version = signal.schema_version;
    if new_schema_version == 0 || new_schema_version <= old_schema_version {
        return Err(TicketingError::InvalidTrustSchemaVersion);
    }
    signal.schema_version = new_schema_version;
    signal.updated_at = now;
    Ok(old_schema_version)
}

} // verus!
