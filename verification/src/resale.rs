//! Secondary market: resale policies, listings, resales, cancellation and
//! expiry.

use vstd::prelude::*;

use crate::constants::{
    LISTING_CLOSE_CANCELED, LISTING_CLOSE_EXPIRED, LISTING_CLOSE_SOLD,
    MAX_RESALE_RECIPIENT_LIST_LEN, RESALE_POLICY_SCHEMA_VERSION,
};
use crate::error::TicketingError;
use crate::key::{contains_key, key_in, zero_key, Key};
use crate::primary_sale::{fee_share, spec_fee, wrap_u64};
use crate::state::{
    EventAccount, Listing, OrganizerProfile, ProtocolConfig, ResalePolicy, ResalePolicyInput,
    Ticket, TicketClass, TicketStatus,
};

verus! {

/// The highest resale price a policy allows: the face price raised by the
/// maximum markup, rounded down and cut to 64 bits.
pub open spec fn spec_max_resale_price(face_price: u64, max_markup_bps: u16) -> int {
    wrap_u64((face_price * (10_000 + max_markup_bps)) / 10_000)
}

/// The highest resale price a policy allows.
pub fn max_resale_price(face_price: u64, max_markup_bps: u16) -> (r: u64)
    requires
        max_markup_bps <= u16::MAX - 10_000,
    ensures
        r == spec_max_resale_price(face_price, max_markup_bps),
{
    let factor: u16 = 10_000u16 + max_markup_bps;
    let a = face_price as u128;
    let b = factor as u128;
    assert(a * b <= 0xffff_ffff_ffff_ffffu128 * 0xffffu128) by (nonlinear_arith)
        requires
            a <= 0xffff_ffff_ffff_ffffu128,
            b <= 0xffffu128,
    ;
    let raised: u128 = a * b / 10_000u128;
    let cut: u128 = raised % 0x1_0000_0000_0000_0000u128;
    cut as u64
}

/// The first reason a listing is refused before its price is held against
/// the maximum markup, if any.
pub open spec fn list_ticket_precheck(
    protocol_config: ProtocolConfig,
    ticket_class: TicketClass,
    ticket: Ticket,
    seller: Key,
    price_lamports: u64,
    expires_at: i64,
    now: i64,
) -> Option<TicketingError> {
    if protocol_config.is_paused {
        Some(TicketingError::ProtocolPaused)
    } else if !ticket_class.is_resale_enabled {
        Some(TicketingError::ResaleDisabled)
    } else if !ticket_class.is_transferable {
        Some(TicketingError::TransferNotAllowed)
    } else if price_lamports == 0 {
        Some(TicketingError::InvalidResalePrice)
    } else if expires_at <= now {
        Some(TicketingError::InvalidListingExpiry)
    } else if ticket.owner@ != seller@ {
        Some(TicketingError::Unauthorized)
    } else if ticket.status != TicketStatus::Active {
        Some(TicketingError::IllegalTicketStatusTransition)
    } else if ticket.is_disputed || ticket.is_chargeback {
        Some(TicketingError::TicketDisputed)
    } else {
        None
    }
}

/// Checks a listing as far as its price: refused for the first reason of
/// `list_ticket_precheck`, accepted otherwise.
pub fn precheck_list_ticket(
    protocol_config: &ProtocolConfig,
    ticket_class: &TicketClass,
    ticket: &Ticket,
    seller: &Key,
    price_lamports: u64,
    expires_at: i64,
    now: i64,
) -> (r: Result<(), TicketingError>)
    ensures
        match list_ticket_precheck(
            *protocol_config,
            *ticket_class,
            *ticket,
            *seller,
            price_lamports,
            expires_at,
            now,
        ) {
            Some(e) => r == Err::<(), TicketingError>(e),
            None => r is Ok,
        },
{
    if protocol_config.is_paused {
        return Err(TicketingError::ProtocolPaused);
    }
    if !ticket_class.is_resale_enabled {
        return Err(TicketingError::ResaleDisabled);
    }
    if !ticket_class.is_transferable {
        return Err(TicketingError::TransferNotAllowed);
    }
    if price_lamports == 0 {
        return Err(TicketingError::InvalidResalePrice);
    }
    if expires_at <= now {
        return Err(TicketingError::InvalidListingExpiry);
    }
    if !ticket.owner.same(seller) {
        return Err(TicketingError::Unauthorized);
    }
    match ticket.status {
        TicketStatus::Active => {},
        _ => return Err(TicketingError::IllegalTicketStatusTransition),
    }
    if ticket.is_disputed || ticket.is_chargeback {
        return Err(TicketingError::TicketDisputed);
    }
    Ok(())
}

/// The first reason a listing is refused, if any.
pub open spec fn list_ticket_error(
    protocol_config: ProtocolConfig,
    ticket_class: TicketClass,
    policy: ResalePolicy,
    ticket: Ticket,
    listing: Listing,
    seller: Key,
    price_lamports: u64,
    expires_at: i64,
    now: i64,
) -> Option<TicketingError> {
    let pre = list_ticket_precheck(
        protocol_config,
        ticket_class,
        ticket,
        seller,
        price_lamports,
        expires_at,
        now,
    );
    if pre is Some {
        pre
    } else if price_lamports > spec_max_resale_price(
        ticket_class.face_price_lamports,
        policy.max_markup_bps,
    ) {
        Some(TicketingError::ListingExceedsMaxMarkup)
    } else if listing.is_active {
        Some(TicketingError::ListingNotActive)
    } else {
        None
    }
}

/// Addresses a listing records.
#[derive(Clone, Copy, Debug)]
pub struct ListingKeys {
    pub event: Key,
    pub ticket_class: Key,
    pub ticket: Key,
}

/// The listing after a seller (re)opens it.
pub open spec fn opened_listing(
    prev: Listing,
    listing_bump: u8,
    keys: ListingKeys,
    seller: Key,
    price_lamports: u64,
    expires_at: i64,
    now: i64,
) -> Listing {
    let fresh = prev.created_at == 0;
    Listing {
        bump: if fresh {
            listing_bump
        } else {
            prev.bump
        },
        event: if fresh {
            keys.event
        } else {
            prev.event
        },
        ticket_class: if fresh {
            keys.ticket_class
        } else {
            prev.ticket_class
        },
        ticket: if fresh {
            keys.ticket
        } else {
            prev.ticket
        },
        seller,
        price_lamports,
        expires_at,
        is_active: true,
        close_reason: 0,
        closed_at: 0,
        created_at: if fresh {
            now
        } else {
            prev.created_at
        },
        updated_at: now,
    }
}

/// Offers a ticket for resale, at most at the face price raised by the
/// policy's maximum markup, until `expires_at`.
///
/// Refused, with the listing unchanged, for the first reason of
/// `list_ticket_error`; otherwise the listing becomes `opened_listing`.
pub fn list_ticket(
    protocol_config: &ProtocolConfig,
    ticket_class: &TicketClass,
    policy: &ResalePolicy,
    ticket: &Ticket,
    listing: &mut Listing,
    keys: &ListingKeys,
    listing_bump: u8,
    seller: Key,
    price_lamports: u64,
    expires_at: i64,
    now: i64,
) -> (r: Result<(), TicketingError>)
    requires
        list_ticket_precheck(
            *protocol_config,
            *ticket_class,
            *ticket,
            seller,
            price_lamports,
            expires_at,
            now,
        ) is None ==> policy.max_markup_bps <= u16::MAX - 10_000,
    ensures
        ({
            let err = list_ticket_error(
                *protocol_config,
                *ticket_class,
                *policy,
                *ticket,
                *old(listing),
                seller,
                price_lamports,
                expires_at,
                now,
            );
            &&& err is Some ==> r == Err::<(), TicketingError>(err.unwrap()) && *final(listing)
                == *old(listing)
            &&& err is None ==> r is Ok && *final(listing) == opened_listing(
                *old(listing),
                listing_bump,
                *keys,
                seller,
                price_lamports,
                expires_at,
                now,
            )
        }),
{
    match precheck_list_ticket(
        protocol_config,
        ticket_class,
        ticket,
        &seller,
        price_lamports,
        expires_at,
        now,
    ) {
        Ok(()) => {},
        Err(e) => return Err(e),
    }
    let max_allowed = max_resale_price(ticket_class.face_price_lamports, policy.max_markup_bps);
    if price_lamports > max_allowed {
        return Err(TicketingError::ListingExceedsMaxMarkup);
    }
    if listing.is_active {
        return Err(TicketingError::ListingNotActive);
    }
    if listing.created_at == 0 {
        listing.bump = listing_bump;
        listing.event = keys.event;
        listing.ticket_class = keys.ticket_class;
        listing.ticket = keys.ticket;
        listing.created_at = now;
    }
    listing.seller = seller;
    listing.price_lamports = price_lamports;
    listing.expires_at = expires_at;
    listing.is_active = true;
    listing.close_reason = 0;
    listing.closed_at = 0;
    listing.updated_at = now;
    Ok(())
}

/// The first reason a resale purchase is refused before the listed price is
/// held against the maximum markup, if any.
pub open spec fn buy_resale_precheck(
    protocol_config: ProtocolConfig,
    ticket_class: TicketClass,
    ticket: Ticket,
    listing: Listing,
    buyer: Key,
    max_price_lamports: u64,
    now: i64,
) -> Option<TicketingError> {
    if protocol_config.is_paused {
        Some(TicketingError::ProtocolPaused)
    } else if !ticket_class.is_resale_enabled {
        Some(TicketingError::ResaleDisabled)
    } else if !ticket_class.is_transferable {
        Some(TicketingError::TransferNotAllowed)
    } else if !listing.is_active {
        Some(TicketingError::ListingNotActive)
    } else if now > listing.expires_at {
        Some(TicketingError::ListingExpired)
    } else if ticket.status != TicketStatus::Active {
        Some(TicketingError::IllegalTicketStatusTransition)
    } else if ticket.is_disputed || ticket.is_chargeback {
        Some(TicketingError::TicketDisputed)
    } else if listing.seller@ == buyer@ {
        Some(TicketingError::Unauthorized)
    } else if listing.price_lamports > max_price_lamports {
        Some(TicketingError::InvalidResalePrice)
    } else {
        None
    }
}

/// Checks a resale purchase as far as the listed price: refused for the
/// first reason of `buy_resale_precheck`, accepted otherwise.
pub fn precheck_buy_resale_ticket(
    protocol_config: &ProtocolConfig,
    ticket_class: &TicketClass,
    ticket: &Ticket,
    listing: &Listing,
    buyer: &Key,
    max_price_lamports: u64,
    now: i64,
) -> (r: Result<(), TicketingError>)
    ensures
        match buy_resale_precheck(
            *protocol_config,
            *ticket_class,
            *ticket,
            *listing,
            *buyer,
            max_price_lamports,
            now,
        ) {
            Some(e) => r == Err::<(), TicketingError>(e),
            None => r is Ok,
        },
{
    if protocol_config.is_paused {
        return Err(TicketingError::ProtocolPaused);
    }
    if !ticket_class.is_resale_enabled {
        return Err(TicketingError::ResaleDisabled);
    }
    if !ticket_class.is_transferable {
        return Err(TicketingError::TransferNotAllowed);
    }
    if !listing.is_active {
        return Err(TicketingError::ListingNotActive);
    }
    if now > listing.expires_at {
        return Err(TicketingError::ListingExpired);
    }
    match ticket.status {
        TicketStatus::Active => {},
        _ => return Err(TicketingError::IllegalTicketStatusTransition),
    }
    if ticket.is_disputed || ticket.is_chargeback {
        return Err(TicketingError::TicketDisputed);
    }
    if listing.seller.same(buyer) {
        return Err(TicketingError::Unauthorized);
    }
    if listing.price_lamports > max_price_lamports {
        return Err(TicketingError::InvalidResalePrice);
    }
    Ok(())
}

/// The first reason a resale purchase is refused, if any.
pub open spec fn buy_resale_error(
    protocol_config: ProtocolConfig,
    event_account: EventAccount,
    ticket_class: TicketClass,
    policy: ResalePolicy,
    ticket: Ticket,
    listing: Listing,
    buyer: Key,
    max_price_lamports: u64,
    now: i64,
) -> Option<TicketingError> {
    let price = listing.price_lamports;
    let royalty = spec_fee(price as int, policy.royalty_bps as int);
    let pre = buy_resale_precheck(
        protocol_config,
        ticket_class,
        ticket,
        listing,
        buyer,
        max_price_lamports,
        now,
    );
    if pre is Some {
        pre
    } else if price > spec_max_resale_price(
        ticket_class.face_price_lamports,
        policy.max_markup_bps,
    ) {
        Some(TicketingError::ListingExceedsMaxMarkup)
    } else if policy.whitelist@.len() > 0 && !key_in(policy.whitelist@, buyer@) {
        Some(TicketingError::RecipientNotWhitelisted)
    } else if key_in(policy.blacklist@, buyer@) {
        Some(TicketingError::RecipientBlacklisted)
    } else if policy.transfer_cooldown_secs > 0 && ticket.last_transfer_at > 0
        && ticket.last_transfer_at + policy.transfer_cooldown_secs > i64::MAX {
        Some(TicketingError::MathOverflow)
    } else if policy.transfer_cooldown_secs > 0 && ticket.last_transfer_at > 0 && now
        < ticket.last_transfer_at + policy.transfer_cooldown_secs {
        Some(TicketingError::TransferCooldownActive)
    } else if policy.max_transfer_count > 0 && ticket.transfer_count
        >= policy.max_transfer_count {
        Some(TicketingError::MaxTransferCountExceeded)
    } else if policy.transfer_lock_before_event_secs > 0 && event_account.start_ts
        - policy.transfer_lock_before_event_secs < i64::MIN {
        Some(TicketingError::MathOverflow)
    } else if policy.transfer_lock_before_event_secs > 0 && now >= event_account.start_ts
        - policy.transfer_lock_before_event_secs {
        Some(TicketingError::TransferLockedByEventStart)
    } else if royalty > price {
        Some(TicketingError::MathOverflow)
    } else if ticket.transfer_count == u16::MAX {
        Some(TicketingError::MathOverflow)
    } else {
        None
    }
}

/// The lamports a resale moves out of the buyer's wallet.
#[derive(Clone, Copy, Debug)]
pub struct ResalePayout {
    /// To the seller.
    pub seller_amount: u64,
    /// To the policy's royalty vault.
    pub royalty_amount: u64,
}

/// Buys a listed ticket, at most at `max_price_lamports`.
///
/// Refused, with the ticket and the listing unchanged, for the first reason
/// of `buy_resale_error`. Otherwise the buyer pays the royalty (its basis
/// points of the price) to the royalty vault and the rest to the seller; the
/// ticket passes to the buyer with one more transfer counted; the listing is
/// closed as sold.
pub fn buy_resale_ticket(
    protocol_config: &ProtocolConfig,
    event_account: &EventAccount,
    ticket_class: &TicketClass,
    policy: &ResalePolicy,
    ticket: &mut Ticket,
    listing: &mut Listing,
    buyer: Key,
    max_price_lamports: u64,
    now: i64,
) -> (r: Result<ResalePayout, TicketingError>)
    requires
        buy_resale_precheck(
            *protocol_config,
            *ticket_class,
            *old(ticket),
            *old(listing),
            buyer,
            max_price_lamports,
            now,
        ) is None ==> policy.max_markup_bps <= u16::MAX - 10_000,
    ensures
        ({
            let err = buy_resale_error(
                *protocol_config,
                *event_account,
                *ticket_class,
                *policy,
                *old(ticket),
                *old(listing),
                buyer,
                max_price_lamports,
                now,
            );
            let price = old(listing).price_lamports;
            &&& err is Some <==> r is Err
            &&& r is Err ==> r == Err::<ResalePayout, TicketingError>(err.unwrap()) && *final(ticket) == *old(ticket) && *final(listing) == *old(listing)
            &&& r matches Ok(p) ==> {
                &&& p.royalty_amount == spec_fee(price as int, policy.royalty_bps as int)
                &&& p.seller_amount + p.royalty_amount == price
                &&& *final(ticket) == (Ticket {
                    owner: buyer,
                    transfer_count: (old(ticket).transfer_count + 1) as u16,
                    last_transfer_at: now,
                    status_updated_at: now,
                    ..*old(ticket)
                })
                &&& *final(listing) == (Listing {
                    is_active: false,
                    close_reason: LISTING_CLOSE_SOLD,
                    closed_at: now,
                    updated_at: now,
                    ..*old(listing)
                })
            }
        }),
{
    match precheck_buy_resale_ticket(
        protocol_config,
        ticket_class,
        ticket,
        listing,
        &buyer,
        max_price_lamports,
        now,
    ) {
        Ok(()) => {},
        Err(e) => return Err(e),
    }
    let max_allowed = max_resale_price(ticket_class.face_price_lamports, policy.max_markup_bps);
    if listing.price_lamports > max_allowed {
        return Err(TicketingError::ListingExceedsMaxMarkup);
    }
    if policy.whitelist.len() > 0 && !contains_key(&policy.whitelist, &buyer) {
        return Err(TicketingError::RecipientNotWhitelisted);
    }
    if contains_key(&policy.blacklist, &buyer) {
        return Err(TicketingError::RecipientBlacklisted);
    }
    if policy.transfer_cooldown_secs > 0 && ticket.last_transfer_at > 0 {
        let min_next = match ticket.last_transfer_at.checked_add(policy.transfer_cooldown_secs) {
            Some(v) => v,
            None => return Err(TicketingError::MathOverflow),
        };
        if now < min_next {
            return Err(TicketingError::TransferCooldownActive);
        }
    }
    if policy.max_transfer_count > 0 && ticket.transfer_count >= policy.max_transfer_count {
        return Err(TicketingError::MaxTransferCountExceeded);
    }
    if policy.transfer_lock_before_event_secs > 0 {
        let lock_start = match event_account.start_ts.checked_sub(
            policy.transfer_lock_before_event_secs,
        ) {
            Some(v) => v,
            None => return Err(TicketingError::MathOverflow),
        };
        if now >= lock_start {
            return Err(TicketingError::TransferLockedByEventStart);
        }
    }
    let price = listing.price_lamports;
    let royalty = fee_share(price, policy.royalty_bps);
    if royalty > price {
        return Err(TicketingError::MathOverflow);
    }
    let seller_amount = price - royalty;
    if ticket.transfer_count == u16::MAX {
        return Err(TicketingError::MathOverflow);
    }
    ticket.owner = buyer;
    ticket.transfer_count = ticket.transfer_count + 1;
    ticket.last_transfer_at = now;
    ticket.status_updated_at = now;
    listing.is_active = false;
    listing.close_reason = LISTING_CLOSE_SOLD;
    listing.closed_at = now;
    listing.updated_at = now;
    Ok(ResalePayout { seller_amount, royalty_amount: royalty })
}

/// Withdraws an active listing. The seller or the protocol admin may do so;
/// a listing past its expiry is recorded as expired, otherwise as canceled.
///
/// Refused with `ProtocolPaused`, then `Unauthorized`, then
/// `ListingNotActive`, with the listing unchanged; otherwise returns the
/// close reason recorded.
pub fn cancel_listing(
    protocol_config: &ProtocolConfig,
    listing: &mut Listing,
    authority: Key,
    now: i64,
) -> (r: Result<u8, TicketingError>)
    ensures
        protocol_config.is_paused ==> r == Err::<u8, TicketingError>(TicketingError::ProtocolPaused),
        !protocol_config.is_paused && authority@ != protocol_config.admin@ && authority@ != old(listing).seller@ ==> r == Err::<u8, TicketingError>(TicketingError::Unauthorized),
        !protocol_config.is_paused && (authority@ == protocol_config.admin@ || authority@ == old(listing).seller@) && !old(listing).is_active ==> r == Err::<u8, TicketingError>(
            TicketingError::ListingNotActive,
        ),
        !protocol_config.is_paused && (authority@ == protocol_config.admin@ || authority@ == old(
            listing,
        ).seller@) && old(listing).is_active ==> r is Ok,
        r is Err ==> *final(listing) == *old(listing),
        r matches Ok(reason) ==> {
            &&& !protocol_config.is_paused
            &&& old(listing).is_active
            &&& authority@ == protocol_config.admin@ || authority@ == old(listing).seller@
            &&& reason == if now > old(listing).expires_at {
                LISTING_CLOSE_EXPIRED
            } else {
                LISTING_CLOSE_CANCELED
            }
            &&& *final(listing) == (Listing {
                is_active: false,
                close_reason: reason,
                closed_at: now,
                updated_at: now,
                ..*old(listing)
            })
        },
{
    if protocol_config.is_paused {
        return Err(TicketingError::ProtocolPaused);
    }
    let is_admin = authority.same(&protocol_config.admin);
    let is_seller = authority.same(&listing.seller);
    if !(is_admin || is_seller) {
        return Err(TicketingError::Unauthorized);
    }
    if !listing.is_active {
        return Err(TicketingError::ListingNotActive);
    }
    let reason = if now > listing.expires_at {
        LISTING_CLOSE_EXPIRED
    } else {
        LISTING_CLOSE_CANCELED
    };
    listing.is_active = false;
    listing.close_reason = reason;
    listing.closed_at = now;
    listing.updated_at = now;
    Ok(reason)
}

/// Closes an active listing whose expiry has passed; anyone may do so.
///
/// Refused with `ProtocolPaused`, then `ListingNotActive`, then
/// `ListingNotYetExpired`, with the listing unchanged; otherwise the listing
/// is closed as expired.
pub fn expire_listing(protocol_config: &ProtocolConfig, listing: &mut Listing, now: i64) -> (r:
    Result<(), TicketingError>)
    ensures
        protocol_config.is_paused ==> r == Err::<(), TicketingError>(TicketingError::ProtocolPaused),
        !protocol_config.is_paused && !old(listing).is_active ==> r == Err::<(), TicketingError>(
            TicketingError::ListingNotActive,
        ),
        !protocol_config.is_paused && old(listing).is_active && now <= old(listing).expires_at
            ==> r == Err::<(), TicketingError>(TicketingError::ListingNotYetExpired),
        !protocol_config.is_paused && old(listing).is_active && now > old(listing).expires_at
            ==> r is Ok,
        r is Err ==> *final(listing) == *old(listing),
        r is Ok ==> !protocol_config.is_paused && old(listing).is_active && now > old(listing).expires_at && *final(listing) == (Listing {
            is_active: false,
            close_reason: LISTING_CLOSE_EXPIRED,
            closed_at: now,
            updated_at: now,
            ..*old(listing)
        }),
{
    if protocol_config.is_paused {
        return Err(TicketingError::ProtocolPaused);
    }
    if !listing.is_active {
        return Err(TicketingError::ListingNotActive);
    }
    if now <= listing.expires_at {
        return Err(TicketingError::ListingNotYetExpired);
    }
    listing.is_active = false;
    listing.close_reason = LISTING_CLOSE_EXPIRED;
    listing.closed_at = now;
    listing.updated_at = now;
    Ok(())
}

/// The first reason a resale policy update is refused, if any.
pub open spec fn set_resale_policy_error(
    protocol_config: ProtocolConfig,
    organizer_profile: OrganizerProfile,
    ticket_class: TicketClass,
    authority: Key,
    input: ResalePolicyInput,
) -> Option<TicketingError> {
    if protocol_config.is_paused {
        Some(TicketingError::ProtocolPaused)
    } else if input.max_markup_bps > 10_000 {
        Some(TicketingError::InvalidFeeBps)
    } else if input.royalty_bps > 10_000 {
        Some(TicketingError::InvalidFeeBps)
    } else if input.whitelist@.len() > MAX_RESALE_RECIPIENT_LIST_LEN {
        Some(TicketingError::InvalidResalePrice)
    } else if input.blacklist@.len() > MAX_RESALE_RECIPIENT_LIST_LEN {
        Some(TicketingError::InvalidResalePrice)
    } else if !(input.transfer_cooldown_secs >= 0 && input.transfer_lock_before_event_secs >= 0) {
        Some(TicketingError::InvalidResalePrice)
    } else if !ticket_class.is_resale_enabled {
        Some(TicketingError::ResaleDisabled)
    } else if !(authority@ == protocol_config.admin@ || authority@
        == organizer_profile.authority@) {
        Some(TicketingError::Unauthorized)
    } else {
        None
    }
}

/// Addresses a resale policy records.
#[derive(Clone, Copy, Debug)]
pub struct PolicyKeys {
    pub event: Key,
    pub ticket_class: Key,
}

/// Whether `p` is the policy `prev` becomes once `input` is applied.
pub open spec fn is_updated_policy(
    p: ResalePolicy,
    prev: ResalePolicy,
    policy_bump: u8,
    keys: PolicyKeys,
    class_id: u16,
    input: ResalePolicyInput,
    now: i64,
) -> bool {
    let fresh = prev.created_at == 0;
    &&& p.bump == (if fresh {
        policy_bump
    } else {
        prev.bump
    })
    &&& p.schema_version == (if fresh {
        RESALE_POLICY_SCHEMA_VERSION
    } else {
        prev.schema_version
    })
    &&& p.deprecated_layout_version == (if fresh {
        0
    } else {
        prev.deprecated_layout_version
    })
    &&& (if fresh {
        p.replacement_account@ == zero_key()
    } else {
        p.replacement_account == prev.replacement_account
    })
    &&& p.deprecated_at == (if fresh {
        0
    } else {
        prev.deprecated_at
    })
    &&& p.event == (if fresh {
        keys.event
    } else {
        prev.event
    })
    &&& p.ticket_class == (if fresh {
        keys.ticket_class
    } else {
        prev.ticket_class
    })
    &&& p.class_id == (if fresh {
        class_id
    } else {
        prev.class_id
    })
    &&& p.created_at == (if fresh {
        now
    } else {
        prev.created_at
    })
    &&& p.max_markup_bps == input.max_markup_bps
    &&& p.royalty_bps == input.royalty_bps
    &&& p.royalty_vault == input.royalty_vault
    &&& p.transfer_cooldown_secs == input.transfer_cooldown_secs
    &&& p.max_transfer_count == input.max_transfer_count
    &&& p.transfer_lock_before_event_secs == input.transfer_lock_before_event_secs
    &&& p.whitelist@ == input.whitelist@
    &&& p.blacklist@ == input.blacklist@
    &&& p.updated_at == now
}

/// Sets the resale rules of a ticket class. The organizer or the protocol
/// admin may do so while resale is enabled on the class.
///
/// Refused, with the policy unchanged, for the first reason of
/// `set_resale_policy_error`; otherwise the policy takes the new rules.
pub fn set_resale_policy(
    protocol_config: &ProtocolConfig,
    organizer_profile: &OrganizerProfile,
    ticket_class: &TicketClass,
    policy: &mut ResalePolicy,
    keys: &PolicyKeys,
    policy_bump: u8,
    class_id: u16,
    authority: Key,
    input: ResalePolicyInput,
    now: i64,
) -> (r: Result<(), TicketingError>)
    ensures
        ({
            let err = set_resale_policy_error(
                *protocol_config,
                *organizer_profile,
                *ticket_class,
                authority,
                input,
            );
            &&& err is Some ==> r == Err::<(), TicketingError>(err.unwrap()) && *final(policy)
                == *old(policy)
            &&& err is None ==> r is Ok && is_updated_policy(
                *final(policy),
                *old(policy),
                policy_bump,
                *keys,
                class_id,
                input,
                now,
            )
        }),
{
    if protocol_config.is_paused {
        return Err(TicketingError::ProtocolPaused);
    }
    if input.max_markup_bps > 10_000 {
        return Err(TicketingError::InvalidFeeBps);
    }
    if input.royalty_bps > 10_000 {
        return Err(TicketingError::InvalidFeeBps);
    }
    if input.whitelist.len() > MAX_RESALE_RECIPIENT_LIST_LEN {
        return Err(TicketingError::InvalidResalePrice);
    }
    if input.blacklist.len() > MAX_RESALE_RECIPIENT_LIST_LEN {
        return Err(TicketingError::InvalidResalePrice);
    }
    if !(input.transfer_cooldown_secs >= 0 && input.transfer_lock_before_event_secs >= 0) {
        return Err(TicketingError::InvalidResalePrice);
    }
    if !ticket_class.is_resale_enabled {
        return Err(TicketingError::ResaleDisabled);
    }
    let is_admin = authority.same(&protocol_config.admin);
    let is_organizer = authority.same(&organizer_profile.authority);
    if !(is_admin || is_organizer) {
        return Err(TicketingError::Unauthorized);
    }
    if policy.created_at == 0 {
        policy.bump = policy_bump;
        policy.schema_version = RESALE_POLICY_SCHEMA_VERSION;
        policy.deprecated_layout_version = 0;
        policy.replacement_account = Key::zero();
        policy.deprecated_at = 0;
        policy.event = keys.event;
        policy.ticket_class = keys.ticket_class;
        policy.class_id = class_id;
        policy.created_at = now;
    }
    policy.max_markup_bps = input.max_markup_bps;
    policy.royalty_bps = input.royalty_bps;
    policy.royalty_vault = input.royalty_vault;
    policy.transfer_cooldown_secs = input.transfer_cooldown_secs;
    policy.max_transfer_count = input.max_transfer_count;
    policy.transfer_lock_before_event_secs = input.transfer_lock_before_event_secs;
    policy.whitelist = input.whitelist;
    policy.blacklist = input.blacklist;
    policy.updated_at = now;
    Ok(())
}

/// Law: a resale never sells above the policy's markup over face value,
/// nor above what the buyer agreed to pay, and never to the seller.
pub proof fn law_resale_within_markup(
    protocol_config: ProtocolConfig,
    event_account: EventAccount,
    ticket_class: TicketClass,
    policy: ResalePolicy,
    ticket: Ticket,
    listing: Listing,
    buyer: Key,
    max_price_lamports: u64,
    now: i64,
)
    requires
        buy_resale_error(
            protocol_config,
            event_account,
            ticket_class,
            policy,
            ticket,
            listing,
            buyer,
            max_price_lamports,
            now,
        ) is None,
    ensures
        listing.price_lamports <= spec_max_resale_price(
            ticket_class.face_price_lamports,
            policy.max_markup_bps,
        ),
        listing.price_lamports <= max_price_lamports,
        listing.seller@ != buyer@,
        listing.is_active,
{
}

/// Law: under a policy with a non-empty whitelist, a resale that passes the
/// earlier checks is refused as `RecipientNotWhitelisted` exactly when the
/// buyer's key is not on the whitelist; whom the listing's seller is plays
/// no part.
pub proof fn law_whitelist_admits_exactly_listed_buyers(
    protocol_config: ProtocolConfig,
    event_account: EventAccount,
    ticket_class: TicketClass,
    policy: ResalePolicy,
    ticket: Ticket,
    listing: Listing,
    buyer: Key,
    max_price_lamports: u64,
    now: i64,
)
    requires
        !protocol_config.is_paused,
        ticket_class.is_resale_enabled,
        ticket_class.is_transferable,
        listing.is_active,
        now <= listing.expires_at,
        ticket.status == TicketStatus::Active,
        !ticket.is_disputed,
        !ticket.is_chargeback,
        listing.seller@ != buyer@,
        listing.price_lamports <= max_price_lamports,
        (ticket_class.face_price_lamports * (10_000 + policy.max_markup_bps)) / 10_000
            <= u64::MAX,
        listing.price_lamports <= (ticket_class.face_price_lamports * (10_000
            + policy.max_markup_bps)) / 10_000,
        policy.whitelist@.len() > 0,
    ensures
        (buy_resale_error(
            protocol_config,
            event_account,
            ticket_class,
            policy,
            ticket,
            listing,
            buyer,
            max_price_lamports,
            now,
        ) == Some(TicketingError::RecipientNotWhitelisted)) <==> !(exists|i: int|
            0 <= i < policy.whitelist@.len() && #[trigger] policy.whitelist@[i]@ == buyer@),
{
    let m = (ticket_class.face_price_lamports * (10_000 + policy.max_markup_bps)) / 10_000;
    assert(0 <= m);
    assert(m % 0x1_0000_0000_0000_0000 == m);
}

} // verus!
