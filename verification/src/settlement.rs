//! Revenue settlement: the waterfall that routes gross revenue and the ledger
//! that records it.

use vstd::prelude::*;

use crate::error::TicketingError;
use crate::key::Key;
use crate::math::{prorata_bps, spec_prorata};
use crate::pda::{
    find_program_address, key_bytes, program_address, seed_settlement_ledger, seeds2,
    spec_seed_settlement_ledger,
};
use crate::state::{
    EventAccount, FinancingLifecycleStatus, FinancingOffer, OrganizerProfile, ProtocolConfig,
    SettlementLedger,
};

verus! {

/// How one settlement of gross revenue is split.
#[derive(Clone, Copy, Debug)]
pub struct WaterfallSplit {
    pub financier_amount: u64,
    pub organizer_amount: u64,
    pub protocol_amount: u64,
    pub royalty_amount: u64,
    pub other_amount: u64,
}

/// What a settlement request came to.
#[derive(Clone, Copy, Debug)]
pub enum SettlementOutcome {
    /// The reference was the last one settled: nothing was moved or recorded.
    Replayed,
    /// The revenue was split; the app pays each leg from the revenue source.
    Settled(WaterfallSplit),
}

/// A request to route gross revenue through the waterfall.
#[derive(Clone, Copy, Debug)]
pub struct SettlementRequest {
    pub gross_revenue_lamports: u64,
    pub protocol_bps: u16,
    pub royalty_bps: u16,
    pub other_bps: u16,
    pub settlement_reference: [u8; 16],
    pub is_primary: bool,
}

/// The wallets that a settlement pays from and to.
#[derive(Clone, Copy, Debug)]
pub struct SettlementWallets {
    pub revenue_source: Key,
    pub financier_wallet: Key,
    pub organizer_payout_wallet: Key,
    pub protocol_fee_vault: Key,
    pub royalty_vault: Key,
    pub other_vault: Key,
}

/// Addresses of the accounts a settlement records.
#[derive(Clone, Copy, Debug)]
pub struct SettlementKeys {
    pub event: Key,
    pub organizer_profile: Key,
    pub financing_offer: Key,
    pub program_id: Key,
}

/// Whether a 16-byte reference is all zeros.
pub open spec fn reference_is_blank(r: [u8; 16]) -> bool {
    r@ == Seq::new(16, |i: int| 0u8)
}

/// Whether a 16-byte reference is all zeros.
pub fn is_blank_reference(r: &[u8; 16]) -> (b: bool)
    ensures
        b == reference_is_blank(*r),
{
    let mut i: usize = 0;
    while i < 16
        invariant
            0 <= i <= 16,
            r@.len() == 16,
            forall|j: int| 0 <= j < i ==> r@[j] == 0u8,
        decreases 16 - i,
    {
        if r[i] != 0 {
            return false;
        }
        i = i + 1;
    }
    assert(r@ =~= Seq::new(16, |i: int| 0u8));
    true
}

/// Whether two 16-byte references are the same.
pub fn same_reference(a: &[u8; 16], b: &[u8; 16]) -> (r: bool)
    ensures
        r == (a@ == b@),
{
    let mut i: usize = 0;
    while i < 16
        invariant
            0 <= i <= 16,
            a@.len() == 16,
            b@.len() == 16,
            forall|j: int| 0 <= j < i ==> a@[j] == b@[j],
        decreases 16 - i,
    {
        if a[i] != b[i] {
            return false;
        }
        i = i + 1;
    }
    assert(a@ =~= b@);
    true
}

/// A settlement needs a non-blank reference; refused with
/// `InvalidSettlementReference` otherwise.
pub fn assert_settlement_reference(reference: &[u8; 16]) -> (r: Result<(), TicketingError>)
    ensures
        r is Ok <==> !reference_is_blank(*reference),
        r is Err ==> r == Err::<(), TicketingError>(TicketingError::InvalidSettlementReference),
{
    if is_blank_reference(reference) {
        Err(TicketingError::InvalidSettlementReference)
    } else {
        Ok(())
    }
}

/// The three percentage legs may not exceed the whole; refused with
/// `InvalidWaterfallBps` otherwise.
pub fn assert_waterfall_bps(protocol_bps: u16, royalty_bps: u16, other_bps: u16) -> (r: Result<
    (),
    TicketingError,
>)
    ensures
        r is Ok <==> protocol_bps + royalty_bps + other_bps <= 10_000,
        r is Err ==> r == Err::<(), TicketingError>(TicketingError::InvalidWaterfallBps),
{
    let total: u32 = protocol_bps as u32 + royalty_bps as u32 + other_bps as u32;
    if total <= 10_000 {
        Ok(())
    } else {
        Err(TicketingError::InvalidWaterfallBps)
    }
}

/// The first reason a settlement request is refused before any amount is
/// computed, if any.
pub open spec fn settlement_precheck(
    protocol_config: ProtocolConfig,
    event_account: EventAccount,
    organizer_profile: OrganizerProfile,
    organizer_authority: Key,
    req: SettlementRequest,
) -> Option<TicketingError> {
    if protocol_config.is_paused {
        Some(TicketingError::ProtocolPaused)
    } else if event_account.is_paused {
        Some(TicketingError::EventPaused)
    } else if reference_is_blank(req.settlement_reference) {
        Some(TicketingError::InvalidSettlementReference)
    } else if organizer_authority@ != organizer_profile.authority@ {
        Some(TicketingError::Unauthorized)
    } else if req.gross_revenue_lamports == 0 {
        Some(TicketingError::InvalidSettlementAmount)
    } else if req.protocol_bps + req.royalty_bps + req.other_bps > 10_000 {
        Some(TicketingError::InvalidWaterfallBps)
    } else {
        None
    }
}

/// What is still owed to the financier: the repayment cap less what was
/// already paid, and nothing once the cap is reached.
pub open spec fn spec_repayment_remaining(cap: int, paid: int) -> int {
    if cap >= paid {
        cap - paid
    } else {
        0
    }
}

/// The waterfall: the protocol, royalty and other legs take their basis
/// points of the gross (rounded down); of what is left the financier is paid
/// first, up to what is still owed, and the organizer gets the rest.
pub open spec fn spec_waterfall(
    gross: int,
    protocol_bps: int,
    royalty_bps: int,
    other_bps: int,
    cap: int,
    paid: int,
) -> (int, int, int, int, int) {
    let protocol = spec_prorata(gross, protocol_bps);
    let royalty = spec_prorata(gross, royalty_bps);
    let other = spec_prorata(gross, other_bps);
    let pool = gross - (protocol + royalty + other);
    let remaining = spec_repayment_remaining(cap, paid);
    let financier = if pool <= remaining {
        pool
    } else {
        remaining
    };
    (financier, pool - financier, protocol, royalty, other)
}

/// The split as the waterfall computes it.
pub open spec fn split_matches(split: WaterfallSplit, w: (int, int, int, int, int)) -> bool {
    &&& split.financier_amount == w.0
    &&& split.organizer_amount == w.1
    &&& split.protocol_amount == w.2
    &&& split.royalty_amount == w.3
    &&& split.other_amount == w.4
}

/// A transfer leg may be paid: nothing moves, or it moves between two
/// different wallets.
pub open spec fn leg_payable(amount: int, from: Key, to: Key) -> bool {
    amount == 0 || from@ != to@
}

/// Every leg of the split may be paid from the revenue source.
pub open spec fn legs_payable(w: (int, int, int, int, int), wallets: SettlementWallets) -> bool {
    &&& leg_payable(w.0, wallets.revenue_source, wallets.financier_wallet)
    &&& leg_payable(w.1, wallets.revenue_source, wallets.organizer_payout_wallet)
    &&& leg_payable(w.2, wallets.revenue_source, wallets.protocol_fee_vault)
    &&& leg_payable(w.3, wallets.revenue_source, wallets.royalty_vault)
    &&& leg_payable(w.4, wallets.revenue_source, wallets.other_vault)
}

/// No running total of the ledger overflows once this settlement is added.
pub open spec fn totals_fit(
    ledger: SettlementLedger,
    w: (int, int, int, int, int),
    gross: int,
    is_primary: bool,
) -> bool {
    &&& is_primary ==> ledger.cumulative_primary_routed_lamports + gross <= u64::MAX
    &&& !is_primary ==> ledger.cumulative_secondary_routed_lamports + gross <= u64::MAX
    &&& ledger.cumulative_financier_paid_lamports + w.0 <= u64::MAX
    &&& ledger.cumulative_organizer_paid_lamports + w.1 <= u64::MAX
    &&& ledger.cumulative_protocol_paid_lamports + w.2 <= u64::MAX
    &&& ledger.cumulative_royalty_paid_lamports + w.3 <= u64::MAX
    &&& ledger.cumulative_other_paid_lamports + w.4 <= u64::MAX
}

/// The address from which a fresh ledger's bump seed is taken.
pub open spec fn ledger_address(keys: SettlementKeys) -> Option<(Seq<u8>, u8)> {
    program_address(seq![spec_seed_settlement_ledger(), keys.event@], keys.program_id@)
}

/// The ledger after a settlement has been recorded.
pub open spec fn settled_ledger(
    prev: SettlementLedger,
    keys: SettlementKeys,
    w: (int, int, int, int, int),
    req: SettlementRequest,
    cap: int,
    now: i64,
) -> SettlementLedger {
    let fresh = prev.created_at == 0;
    let fin_paid = (prev.cumulative_financier_paid_lamports + w.0) as u64;
    let completed = fin_paid >= cap;
    SettlementLedger {
        bump: if fresh {
            ledger_address(keys).unwrap().1
        } else {
            prev.bump
        },
        event: if fresh {
            keys.event
        } else {
            prev.event
        },
        organizer: if fresh {
            keys.organizer_profile
        } else {
            prev.organizer
        },
        financing_offer: if fresh {
            keys.financing_offer
        } else {
            prev.financing_offer
        },
        cumulative_primary_routed_lamports: if req.is_primary {
            (prev.cumulative_primary_routed_lamports + req.gross_revenue_lamports) as u64
        } else {
            prev.cumulative_primary_routed_lamports
        },
        cumulative_secondary_routed_lamports: if req.is_primary {
            prev.cumulative_secondary_routed_lamports
        } else {
            (prev.cumulative_secondary_routed_lamports + req.gross_revenue_lamports) as u64
        },
        cumulative_financier_paid_lamports: fin_paid,
        cumulative_organizer_paid_lamports: (prev.cumulative_organizer_paid_lamports + w.1) as u64,
        cumulative_protocol_paid_lamports: (prev.cumulative_protocol_paid_lamports + w.2) as u64,
        cumulative_royalty_paid_lamports: (prev.cumulative_royalty_paid_lamports + w.3) as u64,
        cumulative_other_paid_lamports: (prev.cumulative_other_paid_lamports + w.4) as u64,
        financing_settled: if completed {
            true
        } else {
            prev.financing_settled
        },
        settled_at: if completed && prev.settled_at == 0 {
            now
        } else {
            prev.settled_at
        },
        settlement_in_progress: false,
        last_settlement_reference: req.settlement_reference,
        created_at: if fresh {
            now
        } else {
            prev.created_at
        },
        updated_at: now,
    }
}

/// The three percentage legs never take more than the gross when their basis
/// points add up to at most a whole.
pub proof fn lemma_legs_within_gross(g: int, a: int, b: int, c: int)
    requires
        g >= 0,
        a >= 0,
        b >= 0,
        c >= 0,
        a + b + c <= 10_000,
    ensures
        0 <= spec_prorata(g, a),
        0 <= spec_prorata(g, b),
        0 <= spec_prorata(g, c),
        spec_prorata(g, a) + spec_prorata(g, b) + spec_prorata(g, c) <= g,
{
    let qa = spec_prorata(g, a);
    let qb = spec_prorata(g, b);
    let qc = spec_prorata(g, c);
    assert(0 <= g * a) by (nonlinear_arith)
        requires
            g >= 0,
            a >= 0,
    ;
    assert(0 <= g * b) by (nonlinear_arith)
        requires
            g >= 0,
            b >= 0,
    ;
    assert(0 <= g * c) by (nonlinear_arith)
        requires
            g >= 0,
            c >= 0,
    ;
    assert(qa * 10_000 <= g * a && qa >= 0) by (nonlinear_arith)
        requires
            qa == (g * a) / 10_000,
            g * a >= 0,
    ;
    assert(qb * 10_000 <= g * b && qb >= 0) by (nonlinear_arith)
        requires
            qb == (g * b) / 10_000,
            g * b >= 0,
    ;
    assert(qc * 10_000 <= g * c && qc >= 0) by (nonlinear_arith)
        requires
            qc == (g * c) / 10_000,
            g * c >= 0,
    ;
    assert(qa + qb + qc <= g) by (nonlinear_arith)
        requires
            qa * 10_000 <= g * a,
            qb * 10_000 <= g * b,
            qc * 10_000 <= g * c,
            a + b + c <= 10_000,
            g >= 0,
    ;
}

/// What settling `req` does: the result `r` and the offer and ledger after
/// it, given the offer and ledger before it.
pub open spec fn settle_spec(
    protocol_config: ProtocolConfig,
    event_account: EventAccount,
    organizer_profile: OrganizerProfile,
    organizer_authority: Key,
    keys: SettlementKeys,
    wallets: SettlementWallets,
    offer_old: FinancingOffer,
    ledger_old: SettlementLedger,
    req: SettlementRequest,
    now: i64,
    r: Result<SettlementOutcome, TicketingError>,
    offer_new: FinancingOffer,
    ledger_new: SettlementLedger,
) -> bool {
{
            let pre = settlement_precheck(
                protocol_config,
                event_account,
                organizer_profile,
                organizer_authority,
                req,
            );
            let cap = offer_old.repayment_cap_lamports as int;
            let w = spec_waterfall(
                req.gross_revenue_lamports as int,
                req.protocol_bps as int,
                req.royalty_bps as int,
                req.other_bps as int,
                cap,
                ledger_old.cumulative_financier_paid_lamports as int,
            );
            let replay = ledger_old.last_settlement_reference@ == req.settlement_reference@;
            &&& pre is Some ==> r == Err::<SettlementOutcome, TicketingError>(pre.unwrap())
            &&& pre is None && replay ==> (r matches Ok(SettlementOutcome::Replayed))
            &&& pre is None && !replay && ledger_old.settlement_in_progress ==> r == Err::<
                SettlementOutcome,
                TicketingError,
            >(TicketingError::SettlementInProgress)
            &&& pre is None && !replay && !ledger_old.settlement_in_progress && !legs_payable(
                w,
                wallets,
            ) ==> r == Err::<SettlementOutcome, TicketingError>(
                TicketingError::InvalidSettlementAmount,
            )
            &&& pre is None && !replay && !ledger_old.settlement_in_progress && legs_payable(
                w,
                wallets,
            ) && ledger_old.created_at == 0 && ledger_address(keys) is None ==> r == Err::<
                SettlementOutcome,
                TicketingError,
            >(TicketingError::ProgramAddressNotFound)
            &&& pre is None && !replay && !ledger_old.settlement_in_progress && legs_payable(
                w,
                wallets,
            ) && (ledger_old.created_at != 0 || ledger_address(keys) is Some) && !totals_fit(
                ledger_old,
                w,
                req.gross_revenue_lamports as int,
                req.is_primary,
            ) ==> r == Err::<SettlementOutcome, TicketingError>(TicketingError::MathOverflow)
            &&& pre is None && !replay && !ledger_old.settlement_in_progress && legs_payable(
                w,
                wallets,
            ) && (ledger_old.created_at != 0 || ledger_address(keys) is Some) && totals_fit(
                ledger_old,
                w,
                req.gross_revenue_lamports as int,
                req.is_primary,
            ) ==> (r matches Ok(SettlementOutcome::Settled(_)))
            &&& (r matches Ok(SettlementOutcome::Replayed)) ==> pre is None && replay
            &&& (r is Err || (r matches Ok(SettlementOutcome::Replayed))) ==> ledger_new == ledger_old && offer_new == offer_old
            &&& r matches Ok(SettlementOutcome::Settled(split)) ==> {
                &&& pre is None
                &&& !replay
                &&& split_matches(split, w)
                &&& ledger_new == settled_ledger(ledger_old, keys, w, req, cap, now)
                &&& if ledger_new.cumulative_financier_paid_lamports >= cap {
                    offer_new == (FinancingOffer {
                        status: FinancingLifecycleStatus::Settled,
                        updated_at: now,
                        ..offer_old
                    })
                } else {
                    offer_new == offer_old
                }
            }
        }
}

/// Routes gross revenue through the waterfall for an event whose financing
/// offer has been accepted.
///
/// Refused, with every account unchanged, for the first reason of
/// `settlement_precheck`; replayed as a no-op when the reference is the last
/// one settled; refused with `SettlementInProgress` while another settlement
/// holds the ledger; with `InvalidSettlementAmount` when a leg would move
/// lamports from the revenue source to itself; with
/// `ProgramAddressNotFound` when a fresh ledger's address cannot be derived;
/// with `MathOverflow` when a running total would overflow. Otherwise the
/// split is `spec_waterfall`, the ledger becomes `settled_ledger`, and the
/// offer is marked settled once the financier has been paid the cap.
#[verifier::rlimit(50)]
pub fn settle_revenue_waterfall(
    protocol_config: &ProtocolConfig,
    event_account: &EventAccount,
    organizer_profile: &OrganizerProfile,
    organizer_authority: &Key,
    keys: &SettlementKeys,
    wallets: &SettlementWallets,
    financing_offer: &mut FinancingOffer,
    ledger: &mut SettlementLedger,
    req: &SettlementRequest,
    now: i64,
) -> (r: Result<SettlementOutcome, TicketingError>)
    ensures
        settle_spec(
            *protocol_config,
            *event_account,
            *organizer_profile,
            *organizer_authority,
            *keys,
            *wallets,
            *old(financing_offer),
            *old(ledger),
            *req,
            now,
            r,
            *final(financing_offer),
            *final(ledger),
        ),
{
    if protocol_config.is_paused {
        return Err(TicketingError::ProtocolPaused);
    }
    if event_account.is_paused {
        return Err(TicketingError::EventPaused);
    }
    assert_settlement_reference(&req.settlement_reference)?;
    if !organizer_authority.same(&organizer_profile.authority) {
        return Err(TicketingError::Unauthorized);
    }
    if req.gross_revenue_lamports == 0 {
        return Err(TicketingError::InvalidSettlementAmount);
    }
    assert_waterfall_bps(req.protocol_bps, req.royalty_bps, req.other_bps)?;

    if same_reference(&ledger.last_settlement_reference, &req.settlement_reference) {
        return Ok(SettlementOutcome::Replayed);
    }
    if ledger.settlement_in_progress {
        return Err(TicketingError::SettlementInProgress);
    }

    let gross = req.gross_revenue_lamports;
    proof {
        lemma_legs_within_gross(
            gross as int,
            req.protocol_bps as int,
            req.royalty_bps as int,
            req.other_bps as int,
        );
    }
    let protocol_amount = match prorata_bps(gross, req.protocol_bps) {
        Ok(v) => v,
        Err(e) => return Err(e),
    };
    let royalty_amount = match prorata_bps(gross, req.royalty_bps) {
        Ok(v) => v,
        Err(e) => return Err(e),
    };
    let other_amount = match prorata_bps(gross, req.other_bps) {
        Ok(v) => v,
        Err(e) => return Err(e),
    };
    let priority_three_total = protocol_amount + royalty_amount + other_amount;
    let pool = gross - priority_three_total;
    let cap = financing_offer.repayment_cap_lamports;
    let paid = ledger.cumulative_financier_paid_lamports;
    let repayment_remaining: u64 = if cap >= paid {
        cap - paid
    } else {
        0
    };
    let financier_amount = if pool <= repayment_remaining {
        pool
    } else {
        repayment_remaining
    };
    let organizer_amount = pool - financier_amount;

    let source = &wallets.revenue_source;
    if (financier_amount > 0 && source.same(&wallets.financier_wallet)) || (organizer_amount > 0
        && source.same(&wallets.organizer_payout_wallet)) || (protocol_amount > 0 && source.same(
        &wallets.protocol_fee_vault,
    )) || (royalty_amount > 0 && source.same(&wallets.royalty_vault)) || (other_amount > 0
        && source.same(&wallets.other_vault)) {
        return Err(TicketingError::InvalidSettlementAmount);
    }

    let fresh = ledger.created_at == 0;
    let mut bump = ledger.bump;
    if fresh {
        let seeds = seeds2(seed_settlement_ledger(), key_bytes(&keys.event));
        match find_program_address(&seeds, &keys.program_id) {
            Some(found) => {
                bump = found.1;
            },
            None => {
                return Err(TicketingError::ProgramAddressNotFound);
            },
        }
    }

    let mut primary = ledger.cumulative_primary_routed_lamports;
    let mut secondary = ledger.cumulative_secondary_routed_lamports;
    if req.is_primary {
        primary = match primary.checked_add(gross) {
            Some(v) => v,
            None => return Err(TicketingError::MathOverflow),
        };
    } else {
        secondary = match secondary.checked_add(gross) {
            Some(v) => v,
            None => return Err(TicketingError::MathOverflow),
        };
    }
    let fin_paid = match ledger.cumulative_financier_paid_lamports.checked_add(financier_amount) {
        Some(v) => v,
        None => return Err(TicketingError::MathOverflow),
    };
    let org_paid = match ledger.cumulative_organizer_paid_lamports.checked_add(organizer_amount) {
        Some(v) => v,
        None => return Err(TicketingError::MathOverflow),
    };
    let prot_paid = match ledger.cumulative_protocol_paid_lamports.checked_add(protocol_amount) {
        Some(v) => v,
        None => return Err(TicketingError::MathOverflow),
    };
    let roy_paid = match ledger.cumulative_royalty_paid_lamports.checked_add(royalty_amount) {
        Some(v) => v,
        None => return Err(TicketingError::MathOverflow),
    };
    let oth_paid = match ledger.cumulative_other_paid_lamports.checked_add(other_amount) {
        Some(v) => v,
        None => return Err(TicketingError::MathOverflow),
    };

    if fresh {
        ledger.bump = bump;
        ledger.event = keys.event;
        ledger.organizer = keys.organizer_profile;
        ledger.financing_offer = keys.financing_offer;
        ledger.created_at = now;
    }
    ledger.cumulative_primary_routed_lamports = primary;
    ledger.cumulative_secondary_routed_lamports = secondary;
    ledger.cumulative_financier_paid_lamports = fin_paid;
    ledger.cumulative_organizer_paid_lamports = org_paid;
    ledger.cumulative_protocol_paid_lamports = prot_paid;
    ledger.cumulative_royalty_paid_lamports = roy_paid;
    ledger.cumulative_other_paid_lamports = oth_paid;
    ledger.updated_at = now;

    if fin_paid >= cap {
        ledger.financing_settled = true;
        if ledger.settled_at == 0 {
            ledger.settled_at = now;
        }
        financing_offer.status = FinancingLifecycleStatus::Settled;
        financing_offer.updated_at = now;
    }
    ledger.settlement_in_progress = false;
    ledger.last_settlement_reference = req.settlement_reference;

    Ok(
        SettlementOutcome::Settled(
            WaterfallSplit {
                financier_amount,
                organizer_amount,
                protocol_amount,
                royalty_amount,
                other_amount,
            },
        ),
    )
}

/// Settles primary-sale revenue.
pub fn settle_primary_revenue(
    protocol_config: &ProtocolConfig,
    event_account: &EventAccount,
    organizer_profile: &OrganizerProfile,
    organizer_authority: &Key,
    keys: &SettlementKeys,
    wallets: &SettlementWallets,
    financing_offer: &mut FinancingOffer,
    ledger: &mut SettlementLedger,
    gross_revenue_lamports: u64,
    protocol_bps: u16,
    royalty_bps: u16,
    other_bps: u16,
    settlement_reference: [u8; 16],
    now: i64,
) -> (r: Result<SettlementOutcome, TicketingError>)
    ensures
        ({
            let req = SettlementRequest {
                gross_revenue_lamports,
                protocol_bps,
                royalty_bps,
                other_bps,
                settlement_reference,
                is_primary: true,
            };
            settle_spec(
                *protocol_config,
                *event_account,
                *organizer_profile,
                *organizer_authority,
                *keys,
                *wallets,
                *old(financing_offer),
                *old(ledger),
                req,
                now,
                r,
                *final(financing_offer),
                *final(ledger),
            )
        }),
{
    let req = SettlementRequest {
        gross_revenue_lamports,
        protocol_bps,
        royalty_bps,
        other_bps,
        settlement_reference,
        is_primary: true,
    };
    settle_revenue_waterfall(
        protocol_config,
        event_account,
        organizer_profile,
        organizer_authority,
        keys,
        wallets,
        financing_offer,
        ledger,
        &req,
        now,
    )
}

/// Settles resale revenue.
pub fn settle_resale_revenue(
    protocol_config: &ProtocolConfig,
    event_account: &EventAccount,
    organizer_profile: &OrganizerProfile,
    organizer_authority: &Key,
    keys: &SettlementKeys,
    wallets: &SettlementWallets,
    financing_offer: &mut FinancingOffer,
    ledger: &mut SettlementLedger,
    gross_revenue_lamports: u64,
    protocol_bps: u16,
    royalty_bps: u16,
    other_bps: u16,
    settlement_reference: [u8; 16],
    now: i64,
) -> (r: Result<SettlementOutcome, TicketingError>)
    ensures
        ({
            let req = SettlementRequest {
                gross_revenue_lamports,
                protocol_bps,
                royalty_bps,
                other_bps,
                settlement_reference,
                is_primary: false,
            };
            settle_spec(
                *protocol_config,
                *event_account,
                *organizer_profile,
                *organizer_authority,
                *keys,
                *wallets,
                *old(financing_offer),
                *old(ledger),
                req,
                now,
                r,
                *final(financing_offer),
                *final(ledger),
            )
        }),
{
    let req = SettlementRequest {
        gross_revenue_lamports,
        protocol_bps,
        royalty_bps,
        other_bps,
        settlement_reference,
        is_primary: false,
    };
    settle_revenue_waterfall(
        protocol_config,
        event_account,
        organizer_profile,
        organizer_authority,
        keys,
        wallets,
        financing_offer,
        ledger,
        &req,
        now,
    )
}

/// Marks the financing of an event settled once the financier has been paid
/// the repayment cap.
///
/// Refused with `ProtocolPaused` while the protocol is paused, then with
/// `FinancingNotSettled` while less than the cap has been paid; every
/// account is then unchanged.
pub fn finalize_settlement(
    protocol_config: &ProtocolConfig,
    financing_offer: &mut FinancingOffer,
    ledger: &mut SettlementLedger,
    now: i64,
) -> (r: Result<(), TicketingError>)
    ensures
        protocol_config.is_paused ==> r == Err::<(), TicketingError>(TicketingError::ProtocolPaused),
        !protocol_config.is_paused && old(ledger).cumulative_financier_paid_lamports < old(financing_offer).repayment_cap_lamports ==> r == Err::<(), TicketingError>(
            TicketingError::FinancingNotSettled,
        ),
        !protocol_config.is_paused && old(ledger).cumulative_financier_paid_lamports >= old(
            financing_offer,
        ).repayment_cap_lamports ==> r is Ok,
        r is Err ==> *final(ledger) == *old(ledger) && *final(financing_offer) == *old(financing_offer),
        r is Ok ==> {
            &&& !protocol_config.is_paused
            &&& old(ledger).cumulative_financier_paid_lamports >= old(financing_offer).repayment_cap_lamports
            &&& *final(ledger) == (SettlementLedger {
                financing_settled: true,
                settled_at: if old(ledger).settled_at == 0 {
                    now
                } else {
                    old(ledger).settled_at
                },
                updated_at: now,
                ..*old(ledger)
            })
            &&& *final(financing_offer) == (FinancingOffer {
                status: FinancingLifecycleStatus::Settled,
                updated_at: now,
                ..*old(financing_offer)
            })
        },
{
    if protocol_config.is_paused {
        return Err(TicketingError::ProtocolPaused);
    }
    if ledger.cumulative_financier_paid_lamports < financing_offer.repayment_cap_lamports {
        return Err(TicketingError::FinancingNotSettled);
    }
    ledger.financing_settled = true;
    if ledger.settled_at == 0 {
        ledger.settled_at = now;
    }
    ledger.updated_at = now;
    financing_offer.status = FinancingLifecycleStatus::Settled;
    financing_offer.updated_at = now;
    Ok(())
}

/// Law: the waterfall moves exactly the gross revenue, every leg is
/// non-negative, and the financier is never paid more than is still owed
/// under the repayment cap.
pub proof fn law_waterfall_conserves_gross(
    gross: u64,
    protocol_bps: u16,
    royalty_bps: u16,
    other_bps: u16,
    cap: u64,
    paid: u64,
)
    requires
        protocol_bps + royalty_bps + other_bps <= 10_000,
    ensures
        ({
            let w = spec_waterfall(
                gross as int,
                protocol_bps as int,
                royalty_bps as int,
                other_bps as int,
                cap as int,
                paid as int,
            );
            &&& w.0 + w.1 + w.2 + w.3 + w.4 == gross
            &&& 0 <= w.0 && 0 <= w.1 && 0 <= w.2 && 0 <= w.3 && 0 <= w.4
            &&& w.0 <= spec_repayment_remaining(cap as int, paid as int)
            &&& paid <= cap ==> paid + w.0 <= cap
        }),
{
    lemma_legs_within_gross(gross as int, protocol_bps as int, royalty_bps as int, other_bps as int);
}

/// Law: once a reference has been settled, presenting the same request
/// again is recognised as a replay and changes nothing.
pub proof fn law_settlement_replay_is_noop(
    protocol_config: ProtocolConfig,
    event_account: EventAccount,
    organizer_profile: OrganizerProfile,
    organizer_authority: Key,
    keys: SettlementKeys,
    wallets: SettlementWallets,
    offer_before: FinancingOffer,
    ledger_before: SettlementLedger,
    req: SettlementRequest,
    now: i64,
    split: WaterfallSplit,
    offer_after: FinancingOffer,
    ledger_after: SettlementLedger,
    later: i64,
    r2: Result<SettlementOutcome, TicketingError>,
    offer_final: FinancingOffer,
    ledger_final: SettlementLedger,
)
    requires
        settle_spec(
            protocol_config,
            event_account,
            organizer_profile,
            organizer_authority,
            keys,
            wallets,
            offer_before,
            ledger_before,
            req,
            now,
            Ok(SettlementOutcome::Settled(split)),
            offer_after,
            ledger_after,
        ),
        settle_spec(
            protocol_config,
            event_account,
            organizer_profile,
            organizer_authority,
            keys,
            wallets,
            offer_after,
            ledger_after,
            req,
            later,
            r2,
            offer_final,
            ledger_final,
        ),
    ensures
        r2 matches Ok(SettlementOutcome::Replayed),
        ledger_final == ledger_after,
        offer_final == offer_after,
{
}

/// Law: every settlement that pays out, of primary or of resale revenue,
/// splits the gross the same way: the protocol, royalty and other legs take
/// their basis points of the gross (rounded down), the financier gets what is
/// left up to what is still owed under the repayment cap (the cap less what
/// it was already paid, never below zero), and the organizer the rest. The
/// financier's running total grows by its leg, and once it reaches the cap
/// the financing is marked settled on the ledger and on the offer.
pub proof fn law_waterfall_repays_financier_first(
    protocol_config: ProtocolConfig,
    event_account: EventAccount,
    organizer_profile: OrganizerProfile,
    organizer_authority: Key,
    keys: SettlementKeys,
    wallets: SettlementWallets,
    offer_before: FinancingOffer,
    ledger_before: SettlementLedger,
    req: SettlementRequest,
    now: i64,
    split: WaterfallSplit,
    offer_after: FinancingOffer,
    ledger_after: SettlementLedger,
)
    requires
        settle_spec(
            protocol_config,
            event_account,
            organizer_profile,
            organizer_authority,
            keys,
            wallets,
            offer_before,
            ledger_before,
            req,
            now,
            Ok(SettlementOutcome::Settled(split)),
            offer_after,
            ledger_after,
        ),
    ensures
        ({
            let g = req.gross_revenue_lamports as int;
            let protocol = (g * req.protocol_bps) / 10_000;
            let royalty = (g * req.royalty_bps) / 10_000;
            let other = (g * req.other_bps) / 10_000;
            let pool = g - protocol - royalty - other;
            let cap = offer_before.repayment_cap_lamports as int;
            let paid = ledger_before.cumulative_financier_paid_lamports as int;
            let owed = if cap > paid {
                cap - paid
            } else {
                0
            };
            let financier = if pool < owed {
                pool
            } else {
                owed
            };
            &&& split.protocol_amount == protocol
            &&& split.royalty_amount == royalty
            &&& split.other_amount == other
            &&& split.financier_amount == financier
            &&& split.organizer_amount == pool - financier
            &&& ledger_after.cumulative_financier_paid_lamports == paid + financier
            &&& paid + financier >= cap ==> ledger_after.financing_settled
                && offer_after.status == FinancingLifecycleStatus::Settled
        }),
{
}

/// Law: resale revenue goes through the same waterfall as primary revenue.
/// Two settlements that differ only in whether the revenue is primary, on a
/// ledger whose primary and resale routed totals are equal, give the same
/// answer (the same refusal, a replay, or the same split) and leave the
/// financing offer the same.
pub proof fn law_resale_settles_like_primary(
    protocol_config: ProtocolConfig,
    event_account: EventAccount,
    organizer_profile: OrganizerProfile,
    organizer_authority: Key,
    keys: SettlementKeys,
    wallets: SettlementWallets,
    offer_before: FinancingOffer,
    ledger_before: SettlementLedger,
    req: SettlementRequest,
    now: i64,
    r_primary: Result<SettlementOutcome, TicketingError>,
    offer_primary: FinancingOffer,
    ledger_primary: SettlementLedger,
    r_resale: Result<SettlementOutcome, TicketingError>,
    offer_resale: FinancingOffer,
    ledger_resale: SettlementLedger,
)
    requires
        ledger_before.cumulative_primary_routed_lamports
            == ledger_before.cumulative_secondary_routed_lamports,
        settle_spec(
            protocol_config,
            event_account,
            organizer_profile,
            organizer_authority,
            keys,
            wallets,
            offer_before,
            ledger_before,
            SettlementRequest { is_primary: true, ..req },
            now,
            r_primary,
            offer_primary,
            ledger_primary,
        ),
        settle_spec(
            protocol_config,
            event_account,
            organizer_profile,
            organizer_authority,
            keys,
            wallets,
            offer_before,
            ledger_before,
            SettlementRequest { is_primary: false, ..req },
            now,
            r_resale,
            offer_resale,
            ledger_resale,
        ),
    ensures
        r_primary is Err ==> r_resale == r_primary,
        r_resale is Err ==> r_resale == r_primary,
        (r_primary matches Ok(SettlementOutcome::Replayed)) <==> (r_resale matches Ok(
            SettlementOutcome::Replayed,
        )),
        r_primary matches Ok(SettlementOutcome::Settled(a)) ==> (r_resale matches Ok(
            SettlementOutcome::Settled(b),
        ) && a.financier_amount == b.financier_amount && a.organizer_amount
            == b.organizer_amount && a.protocol_amount == b.protocol_amount && a.royalty_amount
            == b.royalty_amount && a.other_amount == b.other_amount),
        offer_resale == offer_primary,
{
}

} // verus!
