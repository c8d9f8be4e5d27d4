//! Loyalty points: multipliers, accrual and redemption.

use vstd::prelude::*;

use crate::constants::{LOYALTY_LEDGER_SCHEMA_VERSION, MAX_LOYALTY_MULTIPLIER_BPS, MAX_PERK_CODE_LEN};
use crate::error::TicketingError;
use crate::key::{zero_key, Key};
use crate::primary_sale::wrap_u64;
use crate::state::{EventAccount, EventStatus, LoyaltyLedger, ProtocolConfig, Ticket};
use crate::text::{byte_len, text_is_empty, text_len};

verus! {

/// Why points are credited.
#[derive(Clone, Copy, Debug, PartialEq, Eq, Structural)]
pub enum LoyaltyAccrualReason {
    Purchase,
    Attendance,
    HoldDuration,
}

/// The number a reason is stored and reported as.
pub open spec fn reason_code(r: LoyaltyAccrualReason) -> u8 {
    match r {
        LoyaltyAccrualReason::Purchase => 1,
        LoyaltyAccrualReason::Attendance => 2,
        LoyaltyAccrualReason::HoldDuration => 3,
    }
}

/// The reason a number stands for, if any.
pub open spec fn reason_of_code(v: u8) -> Option<LoyaltyAccrualReason> {
    if v == 1 {
        Some(LoyaltyAccrualReason::Purchase)
    } else if v == 2 {
        Some(LoyaltyAccrualReason::Attendance)
    } else if v == 3 {
        Some(LoyaltyAccrualReason::HoldDuration)
    } else {
        None
    }
}

impl LoyaltyAccrualReason {
    /// The reason a number stands for; refused with `InvalidLoyaltyReason`
    /// for any other number.
    pub fn from_u8(value: u8) -> (r: Result<LoyaltyAccrualReason, TicketingError>)
        ensures
            match reason_of_code(value) {
                Some(x) => r == Ok::<LoyaltyAccrualReason, TicketingError>(x),
                None => r == Err::<LoyaltyAccrualReason, TicketingError>(
                    TicketingError::InvalidLoyaltyReason,
                ),
            },
    {
        if value == 1 {
            Ok(LoyaltyAccrualReason::Purchase)
        } else if value == 2 {
            Ok(LoyaltyAccrualReason::Attendance)
        } else if value == 3 {
            Ok(LoyaltyAccrualReason::HoldDuration)
        } else {
            Err(TicketingError::InvalidLoyaltyReason)
        }
    }

    pub fn code(&self) -> (r: u8)
        ensures
            r == reason_code(*self),
    {
        match self {
            LoyaltyAccrualReason::Purchase => 1,
            LoyaltyAccrualReason::Attendance => 2,
            LoyaltyAccrualReason::HoldDuration => 3,
        }
    }
}

/// Whether a multiplier is in range: positive and at most the maximum.
pub open spec fn multiplier_valid(m: u16) -> bool {
    m > 0 && m <= MAX_LOYALTY_MULTIPLIER_BPS
}

/// The admin sets the protocol-wide loyalty multiplier.
///
/// Refused with `InvalidLoyaltyMultiplier`, with the configuration
/// unchanged, when the multiplier is out of range.
pub fn set_global_loyalty_multiplier(
    protocol_config: &mut ProtocolConfig,
    multiplier_bps: u16,
    now: i64,
) -> (r: Result<(), TicketingError>)
    ensures
        r is Ok <==> multiplier_valid(multiplier_bps),
        r is Err ==> r == Err::<(), TicketingError>(TicketingError::InvalidLoyaltyMultiplier)
            && *final(protocol_config) == *old(protocol_config),
        r is Ok ==> *final(protocol_config) == (ProtocolConfig {
            loyalty_multiplier_bps: multiplier_bps,
            updated_at: now,
            ..*old(protocol_config)
        }),
{
    if !(multiplier_bps > 0 && multiplier_bps <= MAX_LOYALTY_MULTIPLIER_BPS) {
        return Err(TicketingError::InvalidLoyaltyMultiplier);
    }
    protocol_config.loyalty_multiplier_bps = multiplier_bps;
    protocol_config.updated_at = now;
    Ok(())
}

/// The organizer sets an event's loyalty multiplier while the event is in
/// draft or frozen.
///
/// Refused with `InvalidLoyaltyMultiplier`, then
/// `InvalidEventStatusTransition`, with the event unchanged.
pub fn set_event_loyalty_multiplier(
    event_account: &mut EventAccount,
    multiplier_bps: u16,
    now: i64,
) -> (r: Result<(), TicketingError>)
    ensures
        !multiplier_valid(multiplier_bps) ==> r == Err::<(), TicketingError>(
            TicketingError::InvalidLoyaltyMultiplier,
        ),
        multiplier_valid(multiplier_bps) && !(old(event_account).status == EventStatus::Draft
            || old(event_account).status == EventStatus::Frozen) ==> r == Err::<(), TicketingError>(
            TicketingError::InvalidEventStatusTransition,
        ),
        multiplier_valid(multiplier_bps) && (old(event_account).status == EventStatus::Draft
            || old(event_account).status == EventStatus::Frozen) ==> r is Ok,
        r is Err ==> *final(event_account) == *old(event_account),
        r is Ok ==> multiplier_valid(multiplier_bps) && (old(event_account).status
            == EventStatus::Draft || old(event_account).status == EventStatus::Frozen) && *final(event_account) == (EventAccount {
            loyalty_multiplier_bps: multiplier_bps,
            updated_at: now,
            ..*old(event_account)
        }),
{
    if !(multiplier_bps > 0 && multiplier_bps <= MAX_LOYALTY_MULTIPLIER_BPS) {
        return Err(TicketingError::InvalidLoyaltyMultiplier);
    }
    if !event_account.status.is_open() {
        return Err(TicketingError::InvalidEventStatusTransition);
    }
    event_account.loyalty_multiplier_bps = multiplier_bps;
    event_account.updated_at = now;
    Ok(())
}

/// The points an accrual is based on: the base, times the days held for a
/// hold-duration accrual.
pub open spec fn adjusted_base(reason: LoyaltyAccrualReason, base: u64, days: u16) -> int {
    if reason == LoyaltyAccrualReason::HoldDuration {
        base * days
    } else {
        base as int
    }
}

/// The points credited: the adjusted base scaled by both multipliers (each
/// in basis points), rounded down, cut to 64 bits.
pub open spec fn credited_points(adjusted: int, global: u16, event: u16) -> int {
    wrap_u64(((adjusted * global * event) / 10_000) / 10_000)
}

/// The first reason an accrual is refused, if any.
pub open spec fn accrue_points_error(
    protocol_config: ProtocolConfig,
    event_account: EventAccount,
    ticket: Ticket,
    ledger: LoyaltyLedger,
    wallet: Key,
    reason: u8,
    base_points: u64,
    hold_duration_days: u16,
) -> Option<TicketingError> {
    if protocol_config.is_paused {
        Some(TicketingError::ProtocolPaused)
    } else if base_points == 0 {
        Some(TicketingError::InvalidLoyaltyPoints)
    } else {
        match reason_of_code(reason) {
            None => Some(TicketingError::InvalidLoyaltyReason),
            Some(why) => {
                let adjusted = adjusted_base(why, base_points, hold_duration_days);
                let credited = credited_points(
                    adjusted,
                    protocol_config.loyalty_multiplier_bps,
                    event_account.loyalty_multiplier_bps,
                );
                let accrued_before = if ledger.wallet@ == zero_key() {
                    0
                } else {
                    ledger.total_accrued_points as int
                };
                let available_before = if ledger.wallet@ == zero_key() {
                    0
                } else {
                    ledger.available_points as int
                };
                if why == LoyaltyAccrualReason::Purchase && ticket.buyer@ != wallet@ {
                    Some(TicketingError::Unauthorized)
                } else if why == LoyaltyAccrualReason::Attendance && !(ticket.owner@ == wallet@
                    && ticket.checked_in_at > 0) {
                    Some(TicketingError::InvalidLoyaltyPoints)
                } else if why == LoyaltyAccrualReason::HoldDuration && !(ticket.owner@ == wallet@
                    && hold_duration_days > 0) {
                    Some(TicketingError::InvalidLoyaltyPoints)
                } else if adjusted > u64::MAX {
                    Some(TicketingError::MathOverflow)
                } else if !(multiplier_valid(protocol_config.loyalty_multiplier_bps)
                    && multiplier_valid(event_account.loyalty_multiplier_bps)) {
                    Some(TicketingError::InvalidLoyaltyMultiplier)
                } else if credited == 0 {
                    Some(TicketingError::InvalidLoyaltyPoints)
                } else if accrued_before + credited > u64::MAX {
                    Some(TicketingError::MathOverflow)
                } else if available_before + credited > u64::MAX {
                    Some(TicketingError::MathOverflow)
                } else {
                    None
                }
            },
        }
    }
}

/// The ledger once it is known to belong to the wallet: a ledger seen for
/// the first time (zero wallet) is opened empty.
pub open spec fn opened_ledger(
    l: LoyaltyLedger,
    ledger_bump: u8,
    wallet: Key,
    now: i64,
) -> LoyaltyLedger {
    if l.wallet@ == zero_key() {
        LoyaltyLedger {
            bump: ledger_bump,
            schema_version: LOYALTY_LEDGER_SCHEMA_VERSION,
            deprecated_layout_version: 0,
            replacement_account: l.replacement_account,
            deprecated_at: 0,
            wallet,
            total_accrued_points: 0,
            total_redeemed_points: 0,
            available_points: 0,
            last_event: l.last_event,
            last_reason: 0,
            last_accrued_at: 0,
            last_redeemed_at: 0,
            created_at: now,
            updated_at: l.updated_at,
        }
    } else {
        l
    }
}

/// The organizer credits loyalty points to a wallet for a ticket: for its
/// purchase (the wallet bought it), its attendance (the wallet holds it and
/// it was checked in) or the days it was held (the wallet holds it).
///
/// Refused, with the ledger unchanged, for the first reason of
/// `accrue_points_error`. Otherwise returns the points credited
/// (`credited_points`), which are added to both the accrued total and the
/// available balance.
pub fn accrue_points(
    protocol_config: &ProtocolConfig,
    event_account: &EventAccount,
    ticket: &Ticket,
    ledger: &mut LoyaltyLedger,
    event_key: Key,
    ledger_bump: u8,
    wallet: Key,
    reason: u8,
    base_points: u64,
    hold_duration_days: u16,
    now: i64,
) -> (r: Result<u64, TicketingError>)
    ensures
        ({
            let err = accrue_points_error(
                *protocol_config,
                *event_account,
                *ticket,
                *old(ledger),
                wallet,
                reason,
                base_points,
                hold_duration_days,
            );
            let why = reason_of_code(reason).unwrap();
            let credited = credited_points(
                adjusted_base(why, base_points, hold_duration_days),
                protocol_config.loyalty_multiplier_bps,
                event_account.loyalty_multiplier_bps,
            );
            let opened = opened_ledger(*old(ledger), ledger_bump, wallet, now);
            &&& err is Some ==> r == Err::<u64, TicketingError>(err.unwrap()) && *final(ledger)
                == *old(ledger)
            &&& err is None ==> r == Ok::<u64, TicketingError>(credited as u64) && final(ledger).replacement_account@ == (if old(ledger).wallet@ == zero_key() {
                zero_key()
            } else {
                old(ledger).replacement_account@
            }) && *final(ledger) == (LoyaltyLedger {
                total_accrued_points: (opened.total_accrued_points + credited) as u64,
                available_points: (opened.available_points + credited) as u64,
                last_event: event_key,
                last_reason: reason,
                last_accrued_at: now,
                updated_at: now,
                replacement_account: final(ledger).replacement_account,
                ..opened
            })
        }),
{
    if protocol_config.is_paused {
        return Err(TicketingError::ProtocolPaused);
    }
    if base_points == 0 {
        return Err(TicketingError::InvalidLoyaltyPoints);
    }
    let why = LoyaltyAccrualReason::from_u8(reason)?;
    match why {
        LoyaltyAccrualReason::Purchase => {
            if !ticket.buyer.same(&wallet) {
                return Err(TicketingError::Unauthorized);
            }
        },
        LoyaltyAccrualReason::Attendance => {
            if !(ticket.owner.same(&wallet) && ticket.checked_in_at > 0) {
                return Err(TicketingError::InvalidLoyaltyPoints);
            }
        },
        LoyaltyAccrualReason::HoldDuration => {
            if !(ticket.owner.same(&wallet) && hold_duration_days > 0) {
                return Err(TicketingError::InvalidLoyaltyPoints);
            }
        },
    }
    let adjusted: u64 = match why {
        LoyaltyAccrualReason::HoldDuration => match base_points.checked_mul(
            hold_duration_days as u64,
        ) {
            Some(v) => v,
            None => return Err(TicketingError::MathOverflow),
        },
        _ => base_points,
    };
    let global = protocol_config.loyalty_multiplier_bps;
    let event_multiplier = event_account.loyalty_multiplier_bps;
    if !(global > 0 && global <= MAX_LOYALTY_MULTIPLIER_BPS && event_multiplier > 0
        && event_multiplier <= MAX_LOYALTY_MULTIPLIER_BPS) {
        return Err(TicketingError::InvalidLoyaltyMultiplier);
    }
    let a = adjusted as u128;
    let g = global as u128;
    let e = event_multiplier as u128;
    assert(a * g <= 0xffff_ffff_ffff_ffffu128 * 0xffffu128) by (nonlinear_arith)
        requires
            a <= 0xffff_ffff_ffff_ffffu128,
            g <= 0xffffu128,
    ;
    assert(a * g * e <= 0xffff_ffff_ffff_ffffu128 * 0xffffu128 * 0xffffu128) by (nonlinear_arith)
        requires
            a * g <= 0xffff_ffff_ffff_ffffu128 * 0xffffu128,
            e <= 0xffffu128,
    ;
    let scaled: u128 = a * g * e / 10_000u128 / 10_000u128;
    let credited = (scaled % 0x1_0000_0000_0000_0000u128) as u64;
    if credited == 0 {
        return Err(TicketingError::InvalidLoyaltyPoints);
    }
    let fresh = ledger.wallet.is_zero();
    let accrued_before: u64 = if fresh {
        0
    } else {
        ledger.total_accrued_points
    };
    let available_before: u64 = if fresh {
        0
    } else {
        ledger.available_points
    };
    let accrued = match accrued_before.checked_add(credited) {
        Some(v) => v,
        None => return Err(TicketingError::MathOverflow),
    };
    let available = match available_before.checked_add(credited) {
        Some(v) => v,
        None => return Err(TicketingError::MathOverflow),
    };
    if fresh {
        ledger.bump = ledger_bump;
        ledger.schema_version = LOYALTY_LEDGER_SCHEMA_VERSION;
        ledger.deprecated_layout_version = 0;
        ledger.replacement_account = Key::zero();
        ledger.deprecated_at = 0;
        ledger.wallet = wallet;
        ledger.total_redeemed_points = 0;
        ledger.last_reason = 0;
        ledger.last_redeemed_at = 0;
        ledger.created_at = now;
    }
    ledger.total_accrued_points = accrued;
    ledger.available_points = available;
    ledger.last_event = event_key;
    ledger.last_reason = reason;
    ledger.last_accrued_at = now;
    ledger.updated_at = now;
    Ok(credited)
}

/// The first reason a redemption is refused, if any.
pub open spec fn redeem_points_error(
    protocol_config: ProtocolConfig,
    ledger: LoyaltyLedger,
    points_to_burn: u64,
    perk_code: Seq<char>,
) -> Option<TicketingError> {
    if protocol_config.is_paused {
        Some(TicketingError::ProtocolPaused)
    } else if points_to_burn == 0 {
        Some(TicketingError::InvalidLoyaltyPoints)
    } else if perk_code.len() == 0 || byte_len(perk_code) > MAX_PERK_CODE_LEN {
        Some(TicketingError::InvalidLoyaltyPerkCode)
    } else if ledger.available_points < points_to_burn {
        Some(TicketingError::InsufficientLoyaltyPoints)
    } else if ledger.total_redeemed_points + points_to_burn > u64::MAX {
        Some(TicketingError::MathOverflow)
    } else {
        None
    }
}

/// A wallet spends loyalty points on a perk.
///
/// Refused, with the ledger unchanged, for the first reason of
/// `redeem_points_error`; otherwise the points move from the available
/// balance to the redeemed total.
pub fn redeem_points(
    protocol_config: &ProtocolConfig,
    ledger: &mut LoyaltyLedger,
    points_to_burn: u64,
    perk_code: &String,
    now: i64,
) -> (r: Result<(), TicketingError>)
    ensures
        ({
            let err = redeem_points_error(*protocol_config, *old(ledger), points_to_burn, perk_code@);
            &&& err is Some ==> r == Err::<(), TicketingError>(err.unwrap()) && *final(ledger)
                == *old(ledger)
            &&& err is None ==> r is Ok && *final(ledger) == (LoyaltyLedger {
                available_points: (old(ledger).available_points - points_to_burn) as u64,
                total_redeemed_points: (old(ledger).total_redeemed_points + points_to_burn) as u64,
                last_redeemed_at: now,
                updated_at: now,
                ..*old(ledger)
            })
        }),
{
    if protocol_config.is_paused {
        return Err(TicketingError::ProtocolPaused);
    }
    if points_to_burn == 0 {
        return Err(TicketingError::InvalidLoyaltyPoints);
    }
    if text_is_empty(perk_code) || text_len(perk_code) > MAX_PERK_CODE_LEN {
        return Err(TicketingError::InvalidLoyaltyPerkCode);
    }
    if ledger.available_points < points_to_burn {
        return Err(TicketingError::InsufficientLoyaltyPoints);
    }
    let redeemed = match ledger.total_redeemed_points.checked_add(points_to_burn) {
        Some(v) => v,
        None => return Err(TicketingError::MathOverflow),
    };
    ledger.available_points = ledger.available_points - points_to_burn;
    ledger.total_redeemed_points = redeemed;
    ledger.last_redeemed_at = now;
    ledger.updated_at = now;
    Ok(())
}

/// Law: redeeming keeps a balanced ledger balanced (available plus redeemed
/// equals accrued), and on a balanced ledger a redemption of available
/// points never overflows.
pub proof fn law_redeem_keeps_points_balanced(l: LoyaltyLedger, points: u64, now: i64)
    requires
        l.points_balanced(),
        l.available_points >= points,
    ensures
        l.total_redeemed_points + points <= u64::MAX,
        (LoyaltyLedger {
            available_points: (l.available_points - points) as u64,
            total_redeemed_points: (l.total_redeemed_points + points) as u64,
            last_redeemed_at: now,
            updated_at: now,
            ..l
        }).points_balanced(),
{
}

/// Law: crediting points keeps a balanced ledger balanced, and a freshly
/// opened ledger starts balanced.
pub proof fn law_accrue_keeps_points_balanced(
    l: LoyaltyLedger,
    ledger_bump: u8,
    wallet: Key,
    credited: int,
    event_key: Key,
    reason: u8,
    now: i64,
)
    requires
        l.wallet@ != zero_key() ==> l.points_balanced(),
        opened_ledger(l, ledger_bump, wallet, now).total_accrued_points + credited <= u64::MAX,
        opened_ledger(l, ledger_bump, wallet, now).available_points + credited <= u64::MAX,
        credited >= 0,
    ensures
        ({
            let opened = opened_ledger(l, ledger_bump, wallet, now);
            &&& opened.points_balanced()
            &&& (LoyaltyLedger {
                total_accrued_points: (opened.total_accrued_points + credited) as u64,
                available_points: (opened.available_points + credited) as u64,
                last_event: event_key,
                last_reason: reason,
                last_accrued_at: now,
                updated_at: now,
                ..opened
            }).points_balanced()
        }),
{
}

/// Law: a purchase or attendance accrual does not depend on the days held.
/// Two accruals that differ only in `hold_duration_days` are refused for the
/// same reason or both accepted, and the points credited are the base points
/// scaled by the global and the event multipliers (each in basis points),
/// rounded down; only a hold-duration accrual multiplies by the days.
pub proof fn law_only_hold_accruals_count_days(
    protocol_config: ProtocolConfig,
    event_account: EventAccount,
    ticket: Ticket,
    ledger: LoyaltyLedger,
    wallet: Key,
    reason: u8,
    base_points: u64,
    days_a: u16,
    days_b: u16,
)
    requires
        reason == 1 || reason == 2,
    ensures
        accrue_points_error(
            protocol_config,
            event_account,
            ticket,
            ledger,
            wallet,
            reason,
            base_points,
            days_a,
        ) == accrue_points_error(
            protocol_config,
            event_account,
            ticket,
            ledger,
            wallet,
            reason,
            base_points,
            days_b,
        ),
        credited_points(
            adjusted_base(reason_of_code(reason).unwrap(), base_points, days_a),
            protocol_config.loyalty_multiplier_bps,
            event_account.loyalty_multiplier_bps,
        ) == ((base_points * protocol_config.loyalty_multiplier_bps
            * event_account.loyalty_multiplier_bps) / 10_000 / 10_000) % 0x1_0000_0000_0000_0000,
{
}

/// Law: an attendance accrual for a checked-in ticket held by the wallet,
/// with both multipliers in range, credits the base points scaled by the
/// multipliers whatever the days held, as long as that credit is positive
/// and fits a fresh ledger.
pub proof fn law_attendance_accrual_is_credited(
    protocol_config: ProtocolConfig,
    event_account: EventAccount,
    ticket: Ticket,
    ledger: LoyaltyLedger,
    wallet: Key,
    base_points: u64,
    hold_duration_days: u16,
)
    requires
        !protocol_config.is_paused,
        base_points > 0,
        ticket.owner@ == wallet@,
        ticket.checked_in_at > 0,
        0 < protocol_config.loyalty_multiplier_bps <= 50_000,
        0 < event_account.loyalty_multiplier_bps <= 50_000,
        0 < (base_points * protocol_config.loyalty_multiplier_bps
            * event_account.loyalty_multiplier_bps) / 10_000 / 10_000 <= u64::MAX,
        ledger.wallet@ == zero_key(),
    ensures
        accrue_points_error(
            protocol_config,
            event_account,
            ticket,
            ledger,
            wallet,
            2,
            base_points,
            hold_duration_days,
        ) is None,
        credited_points(
            adjusted_base(reason_of_code(2).unwrap(), base_points, hold_duration_days),
            protocol_config.loyalty_multiplier_bps,
            event_account.loyalty_multiplier_bps,
        ) == (base_points * protocol_config.loyalty_multiplier_bps
            * event_account.loyalty_multiplier_bps) / 10_000 / 10_000,
{
}

} // verus!
