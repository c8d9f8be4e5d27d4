//! Events: description, creation and life cycle (draft, frozen, cancelled,
//! closed) and pausing.

use vstd::prelude::*;

use crate::constants::{
    DEFAULT_LOYALTY_MULTIPLIER_BPS, EVENT_ACCOUNT_SCHEMA_VERSION, MAX_EVENT_TITLE_LEN,
    MAX_EVENT_VENUE_LEN,
};
use crate::error::TicketingError;
use crate::key::{zero_key, Key};
use crate::state::{EventAccount, EventStatus, OrganizerProfile, OrganizerStatus, ProtocolConfig};
use crate::text::{byte_len, text_len};

verus! {

/// What an organizer describes an event with.
#[derive(Clone, Debug)]
pub struct EventInput {
    pub title: String,
    pub venue: String,
    pub start_ts: i64,
    pub end_ts: i64,
    pub sales_start_ts: i64,
    pub lock_ts: i64,
    pub capacity: u32,
}

/// The first reason an event description is refused, if any: a title or
/// venue too long (in bytes), no capacity, or a time window where the event
/// does not start before it ends, or sales or the lock come after the
/// start.
pub open spec fn event_input_error(input: EventInput) -> Option<TicketingError> {
    if byte_len(input.title@) > MAX_EVENT_TITLE_LEN {
        Some(TicketingError::InvalidEventTitleLength)
    } else if byte_len(input.venue@) > MAX_EVENT_VENUE_LEN {
        Some(TicketingError::InvalidEventVenueLength)
    } else if input.capacity == 0 {
        Some(TicketingError::InvalidEventCapacity)
    } else if !(input.start_ts < input.end_ts && input.sales_start_ts <= input.start_ts
        && input.lock_ts <= input.start_ts) {
        Some(TicketingError::InvalidEventTimeWindow)
    } else {
        None
    }
}

/// Checks an event description.
pub fn validate_event_input(input: &EventInput) -> (r: Result<(), TicketingError>)
    ensures
        match event_input_error(*input) {
            Some(e) => r == Err::<(), TicketingError>(e),
            None => r is Ok,
        },
{
    if text_len(&input.title) > MAX_EVENT_TITLE_LEN {
        return Err(TicketingError::InvalidEventTitleLength);
    }
    if text_len(&input.venue) > MAX_EVENT_VENUE_LEN {
        return Err(TicketingError::InvalidEventVenueLength);
    }
    if input.capacity == 0 {
        return Err(TicketingError::InvalidEventCapacity);
    }
    if !(input.start_ts < input.end_ts && input.sales_start_ts <= input.start_ts && input.lock_ts
        <= input.start_ts) {
        return Err(TicketingError::InvalidEventTimeWindow);
    }
    Ok(())
}

/// The first reason creating an event is refused, if any.
pub open spec fn create_event_error(
    protocol_config: ProtocolConfig,
    organizer_profile: OrganizerProfile,
    input: EventInput,
) -> Option<TicketingError> {
    if event_input_error(input) is Some {
        event_input_error(input)
    } else if protocol_config.is_paused {
        Some(TicketingError::ProtocolPaused)
    } else if organizer_profile.status != OrganizerStatus::Active {
        Some(TicketingError::OrganizerSuspended)
    } else {
        None
    }
}

/// An event as created: current schema, not deprecated, owned by the
/// organizer, described by the input, with the neutral loyalty multiplier,
/// no restrictions, not paused, in draft, created now.
pub open spec fn is_new_event(
    e: EventAccount,
    event_bump: u8,
    organizer_profile_key: Key,
    event_id: u64,
    input: EventInput,
    now: i64,
) -> bool {
    &&& e.bump == event_bump
    &&& e.schema_version == EVENT_ACCOUNT_SCHEMA_VERSION
    &&& e.deprecated_layout_version == 0
    &&& e.replacement_account@ == zero_key()
    &&& e.deprecated_at == 0
    &&& e.organizer == organizer_profile_key
    &&& e.event_id == event_id
    &&& e.title@ == input.title@
    &&& e.venue@ == input.venue@
    &&& e.start_ts == input.start_ts
    &&& e.end_ts == input.end_ts
    &&& e.sales_start_ts == input.sales_start_ts
    &&& e.lock_ts == input.lock_ts
    &&& e.capacity == input.capacity
    &&& e.loyalty_multiplier_bps == DEFAULT_LOYALTY_MULTIPLIER_BPS
    &&& e.compliance_restriction_flags == 0
    &&& !e.is_paused
    &&& e.status == EventStatus::Draft
    &&& e.created_at == now
    &&& e.updated_at == now
}

/// An active organizer creates an event, in draft.
///
/// Refused for the first reason of `create_event_error`, the account
/// unchanged; otherwise the account holds the event as `is_new_event`
/// describes.
pub fn create_event(
    protocol_config: &ProtocolConfig,
    organizer_profile: &OrganizerProfile,
    organizer_profile_key: &Key,
    event_account: &mut EventAccount,
    event_bump: u8,
    event_id: u64,
    input: EventInput,
    now: i64,
) -> (r: Result<(), TicketingError>)
    ensures
        ({
            let err = create_event_error(*protocol_config, *organizer_profile, input);
            &&& err is Some ==> r == Err::<(), TicketingError>(err.unwrap()) && *final(event_account) == *old(event_account)
            &&& err is None ==> r is Ok && is_new_event(
                *final(event_account),
                event_bump,
                *organizer_profile_key,
                event_id,
                input,
                now,
            )
        }),
{
    validate_event_input(&input)?;
    if protocol_config.is_paused {
        return Err(TicketingError::ProtocolPaused);
    }
    match organizer_profile.status {
        OrganizerStatus::Active => {},
        _ => return Err(TicketingError::OrganizerSuspended),
    }
    let EventInput { title, venue, start_ts, end_ts, sales_start_ts, lock_ts, capacity } = input;
    event_account.bump = event_bump;
    event_account.schema_version = EVENT_ACCOUNT_SCHEMA_VERSION;
    event_account.deprecated_layout_version = 0;
    event_account.replacement_account = Key::zero();
    event_account.deprecated_at = 0;
    event_account.organizer = *organizer_profile_key;
    event_account.event_id = event_id;
    event_account.title = title;
    event_account.venue = venue;
    event_account.start_ts = start_ts;
    event_account.end_ts = end_ts;
    event_account.sales_start_ts = sales_start_ts;
    event_account.lock_ts = lock_ts;
    event_account.capacity = capacity;
    event_account.loyalty_multiplier_bps = DEFAULT_LOYALTY_MULTIPLIER_BPS;
    event_account.compliance_restriction_flags = 0;
    event_account.is_paused = false;
    event_account.status = EventStatus::Draft;
    event_account.created_at = now;
    event_account.updated_at = now;
    Ok(())
}

/// The first reason an event update is refused, if any.
pub open spec fn update_event_error(e: EventAccount, input: EventInput, now: i64) -> Option<
    TicketingError,
> {
    if event_input_error(input) is Some {
        event_input_error(input)
    } else if e.status != EventStatus::Draft {
        Some(TicketingError::InvalidEventStatusTransition)
    } else if !(now < e.lock_ts) {
        Some(TicketingError::EventUpdateLocked)
    } else {
        None
    }
}

/// The organizer redescribes an event still in draft, before its lock time.
///
/// Refused for the first reason of `update_event_error`, the event
/// unchanged; otherwise the description is replaced and nothing else.
pub fn update_event(event_account: &mut EventAccount, input: EventInput, now: i64) -> (r: Result<
    (),
    TicketingError,
>)
    ensures
        ({
            let err = update_event_error(*old(event_account), input, now);
            &&& err is Some ==> r == Err::<(), TicketingError>(err.unwrap()) && *final(event_account) == *old(event_account)
            &&& err is None ==> r is Ok && final(event_account).title@ == input.title@ && final(event_account).venue@ == input.venue@ && *final(event_account) == (EventAccount {
                title: final(event_account).title,
                venue: final(event_account).venue,
                start_ts: input.start_ts,
                end_ts: input.end_ts,
                sales_start_ts: input.sales_start_ts,
                lock_ts: input.lock_ts,
                capacity: input.capacity,
                updated_at: now,
                ..*old(event_account)
            })
        }),
{
    validate_event_input(&input)?;
    match event_account.status {
        EventStatus::Draft => {},
        _ => return Err(TicketingError::InvalidEventStatusTransition),
    }
    if !(now < event_account.lock_ts) {
        return Err(TicketingError::EventUpdateLocked);
    }
    let EventInput { title, venue, start_ts, end_ts, sales_start_ts, lock_ts, capacity } = input;
    event_account.title = title;
    event_account.venue = venue;
    event_account.start_ts = start_ts;
    event_account.end_ts = end_ts;
    event_account.sales_start_ts = sales_start_ts;
    event_account.lock_ts = lock_ts;
    event_account.capacity = capacity;
    event_account.updated_at = now;
    Ok(())
}

/// The first reason freezing an event is refused, if any.
pub open spec fn freeze_event_error(e: EventAccount, now: i64) -> Option<TicketingError> {
    if e.status != EventStatus::Draft {
        Some(TicketingError::InvalidEventStatusTransition)
    } else if !(now < e.sales_start_ts) {
        Some(TicketingError::SalesAlreadyStarted)
    } else {
        None
    }
}

/// The organizer freezes a draft event before its sales start.
///
/// Refused for the first reason of `freeze_event_error`, the event
/// unchanged.
pub fn freeze_event(event_account: &mut EventAccount, now: i64) -> (r: Result<(), TicketingError>)
    ensures
        ({
            let err = freeze_event_error(*old(event_account), now);
            &&& err is Some ==> r == Err::<(), TicketingError>(err.unwrap()) && *final(event_account) == *old(event_account)
            &&& err is None ==> r is Ok && *final(event_account) == (EventAccount {
                status: EventStatus::Frozen,
                updated_at: now,
                ..*old(event_account)
            })
        }),
{
    match event_account.status {
        EventStatus::Draft => {},
        _ => return Err(TicketingError::InvalidEventStatusTransition),
    }
    if !(now < event_account.sales_start_ts) {
        return Err(TicketingError::SalesAlreadyStarted);
    }
    event_account.status = EventStatus::Frozen;
    event_account.updated_at = now;
    Ok(())
}

/// The first reason cancelling an event is refused, if any.
pub open spec fn cancel_event_error(e: EventAccount) -> Option<TicketingError> {
    if !(e.status == EventStatus::Draft || e.status == EventStatus::Frozen) {
        Some(TicketingError::InvalidEventStatusTransition)
    } else {
        None
    }
}

/// The organizer cancels an event in draft or frozen. Refused with
/// `InvalidEventStatusTransition`, the event unchanged, otherwise.
pub fn cancel_event(event_account: &mut EventAccount, now: i64) -> (r: Result<(), TicketingError>)
    ensures
        ({
            let err = cancel_event_error(*old(event_account));
            &&& err is Some ==> r == Err::<(), TicketingError>(err.unwrap()) && *final(event_account) == *old(event_account)
            &&& err is None ==> r is Ok && *final(event_account) == (EventAccount {
                status: EventStatus::Cancelled,
                updated_at: now,
                ..*old(event_account)
            })
        }),
{
    if !event_account.status.is_open() {
        return Err(TicketingError::InvalidEventStatusTransition);
    }
    event_account.status = EventStatus::Cancelled;
    event_account.updated_at = now;
    Ok(())
}

/// The first reason closing an event is refused, if any.
pub open spec fn close_event_error(e: EventAccount, now: i64) -> Option<TicketingError> {
    if !(e.status == EventStatus::Cancelled || now >= e.end_ts) {
        Some(TicketingError::InvalidEventStatusTransition)
    } else {
        None
    }
}

/// The organizer closes an event that was cancelled or has ended. Refused
/// with `InvalidEventStatusTransition`, the event unchanged, otherwise.
pub fn close_event(event_account: &mut EventAccount, now: i64) -> (r: Result<(), TicketingError>)
    ensures
        ({
            let err = close_event_error(*old(event_account), now);
            &&& err is Some ==> r == Err::<(), TicketingError>(err.unwrap()) && *final(event_account) == *old(event_account)
            &&& err is None ==> r is Ok && *final(event_account) == (EventAccount {
                status: EventStatus::Closed,
                updated_at: now,
                ..*old(event_account)
            })
        }),
{
    let cancelled = match event_account.status {
        EventStatus::Cancelled => true,
        _ => false,
    };
    if !(cancelled || now >= event_account.end_ts) {
        return Err(TicketingError::InvalidEventStatusTransition);
    }
    event_account.status = EventStatus::Closed;
    event_account.updated_at = now;
    Ok(())
}

/// The organizer pauses or resumes an event of its own. Refused with
/// `Unauthorized`, the event unchanged, when the event belongs to another
/// organizer. Its status is kept.
pub fn pause_event(
    event_account: &mut EventAccount,
    organizer_profile_key: &Key,
    is_paused: bool,
    now: i64,
) -> (r: Result<(), TicketingError>)
    ensures
        old(event_account).organizer@ != organizer_profile_key@ ==> r == Err::<(), TicketingError>(
            TicketingError::Unauthorized,
        ) && *final(event_account) == *old(event_account),
        old(event_account).organizer@ == organizer_profile_key@ ==> r is Ok && *final(event_account) == (EventAccount { is_paused, updated_at: now, ..*old(event_account) }),
{
    if !event_account.organizer.same(organizer_profile_key) {
        return Err(TicketingError::Unauthorized);
    }
    event_account.is_paused = is_paused;
    event_account.updated_at = now;
    Ok(())
}

/// Law: cancelled and closed events never come back to draft or frozen:
/// neither freezing, cancelling nor redescribing is accepted for them.
pub proof fn law_event_end_states_are_final(e: EventAccount, input: EventInput, now: i64)
    requires
        e.status == EventStatus::Cancelled || e.status == EventStatus::Closed,
    ensures
        freeze_event_error(e, now) is Some,
        cancel_event_error(e) is Some,
        update_event_error(e, input, now) is Some,
{
}

} // verus!
