//! Advances to organizers: offers, acceptance, freezes, disbursements and
//! clawbacks.

use vstd::prelude::*;

use crate::error::TicketingError;
use crate::key::{zero_key, Key};
use crate::settlement::{is_blank_reference, reference_is_blank};
use crate::state::{
    DisbursementRecord, EventAccount, FinancingLifecycleStatus, FinancingOffer,
    FinancingOfferInput, ProtocolConfig,
};

verus! {

/// The first reason offer terms are invalid, if any.
pub open spec fn financing_input_error(input: FinancingOfferInput) -> Option<TicketingError> {
    if input.advance_amount_lamports == 0 {
        Some(TicketingError::InvalidFinancingAdvanceAmount)
    } else if input.fee_bps > 10_000 {
        Some(TicketingError::InvalidFeeBps)
    } else if input.repayment_cap_lamports < input.advance_amount_lamports {
        Some(TicketingError::InvalidRepaymentCap)
    } else if !(input.schedule_interval_secs > 0 && input.schedule_installments > 0) {
        Some(TicketingError::InvalidFinancingSchedule)
    } else {
        None
    }
}

/// Checks offer terms: a positive advance, a fee of at most a whole, a cap
/// of at least the advance, and a schedule with a positive interval and at
/// least one installment.
pub fn validate_financing_input(input: &FinancingOfferInput) -> (r: Result<(), TicketingError>)
    ensures
        match financing_input_error(*input) {
            Some(e) => r == Err::<(), TicketingError>(e),
            None => r is Ok,
        },
{
    if input.advance_amount_lamports == 0 {
        return Err(TicketingError::InvalidFinancingAdvanceAmount);
    }
    if input.fee_bps > 10_000 {
        return Err(TicketingError::InvalidFeeBps);
    }
    if input.repayment_cap_lamports < input.advance_amount_lamports {
        return Err(TicketingError::InvalidRepaymentCap);
    }
    if !(input.schedule_interval_secs > 0 && input.schedule_installments > 0) {
        return Err(TicketingError::InvalidFinancingSchedule);
    }
    Ok(())
}

/// The first reason an offer is refused, if any.
pub open spec fn create_financing_offer_error(
    protocol_config: ProtocolConfig,
    organizer_authority: Key,
    offer: FinancingOffer,
    authority: Key,
    input: FinancingOfferInput,
) -> Option<TicketingError> {
    if protocol_config.is_paused {
        Some(TicketingError::ProtocolPaused)
    } else if financing_input_error(input) is Some {
        financing_input_error(input)
    } else if offer.created_at != 0 && offer.terms_locked {
        Some(TicketingError::FinancingTermsLocked)
    } else if offer.created_at != 0 && !(authority@ == protocol_config.admin@ || authority@
        == organizer_authority@ || authority@ == offer.offer_authority@) {
        Some(TicketingError::Unauthorized)
    } else {
        None
    }
}

/// Addresses an offer records.
#[derive(Clone, Copy, Debug)]
pub struct OfferKeys {
    pub event: Key,
    pub organizer_profile: Key,
}

/// The offer after new terms are proposed: back to draft, unlocked, not
/// frozen, with no decision and nothing disbursed.
pub open spec fn is_proposed_offer(
    o: FinancingOffer,
    prev: FinancingOffer,
    offer_bump: u8,
    keys: OfferKeys,
    authority: Key,
    input: FinancingOfferInput,
    now: i64,
) -> bool {
    let fresh = prev.created_at == 0;
    &&& o.bump == (if fresh {
        offer_bump
    } else {
        prev.bump
    })
    &&& o.event == (if fresh {
        keys.event
    } else {
        prev.event
    })
    &&& o.organizer == (if fresh {
        keys.organizer_profile
    } else {
        prev.organizer
    })
    &&& o.created_at == (if fresh {
        now
    } else {
        prev.created_at
    })
    &&& o.schema_version == prev.schema_version
    &&& o.deprecated_layout_version == prev.deprecated_layout_version
    &&& o.replacement_account == prev.replacement_account
    &&& o.deprecated_at == prev.deprecated_at
    &&& o.compliance_decision_code == prev.compliance_decision_code
    &&& o.compliance_checked_at == prev.compliance_checked_at
    &&& o.offer_authority == authority
    &&& o.advance_amount_lamports == input.advance_amount_lamports
    &&& o.fee_bps == input.fee_bps
    &&& o.repayment_cap_lamports == input.repayment_cap_lamports
    &&& o.schedule_start_ts == input.schedule_start_ts
    &&& o.schedule_interval_secs == input.schedule_interval_secs
    &&& o.schedule_installments == input.schedule_installments
    &&& o.max_disbursements == input.schedule_installments
    &&& o.status == FinancingLifecycleStatus::Draft
    &&& !o.terms_locked
    &&& !o.financing_frozen
    &&& !o.clawback_allowed
    &&& o.freeze_reason_code == 0
    &&& o.accepted_by@ == zero_key()
    &&& o.accepted_at == 0
    &&& o.rejected_by@ == zero_key()
    &&& o.rejected_at == 0
    &&& o.total_disbursed_lamports == 0
    &&& o.disbursement_count == 0
    &&& o.disbursed_at == 0
    &&& o.updated_at == now
}

/// Proposes (or, while unlocked, re-proposes) financing terms for an event.
/// A fresh offer may be proposed by anyone; an existing unlocked one only by
/// the protocol admin, the organizer or whoever proposed it.
///
/// Refused, with the offer unchanged, for the first reason of
/// `create_financing_offer_error`; otherwise the offer carries the new terms
/// as `is_proposed_offer` describes.
pub fn create_financing_offer(
    protocol_config: &ProtocolConfig,
    organizer_authority: &Key,
    offer: &mut FinancingOffer,
    keys: &OfferKeys,
    offer_bump: u8,
    authority: Key,
    input: FinancingOfferInput,
    now: i64,
) -> (r: Result<(), TicketingError>)
    ensures
        ({
            let err = create_financing_offer_error(
                *protocol_config,
                *organizer_authority,
                *old(offer),
                authority,
                input,
            );
            &&& err is Some ==> r == Err::<(), TicketingError>(err.unwrap()) && *final(offer)
                == *old(offer)
            &&& err is None ==> r is Ok && is_proposed_offer(
                *final(offer),
                *old(offer),
                offer_bump,
                *keys,
                authority,
                input,
                now,
            )
        }),
{
    if protocol_config.is_paused {
        return Err(TicketingError::ProtocolPaused);
    }
    validate_financing_input(&input)?;
    if offer.created_at == 0 {
        offer.bump = offer_bump;
        offer.event = keys.event;
        offer.organizer = keys.organizer_profile;
        offer.created_at = now;
    } else {
        if offer.terms_locked {
            return Err(TicketingError::FinancingTermsLocked);
        }
        let is_admin = authority.same(&protocol_config.admin);
        let is_organizer = authority.same(organizer_authority);
        let is_authority = authority.same(&offer.offer_authority);
        if !(is_admin || is_organizer || is_authority) {
            return Err(TicketingError::Unauthorized);
        }
    }
    offer.offer_authority = authority;
    offer.advance_amount_lamports = input.advance_amount_lamports;
    offer.fee_bps = input.fee_bps;
    offer.repayment_cap_lamports = input.repayment_cap_lamports;
    offer.schedule_start_ts = input.schedule_start_ts;
    offer.schedule_interval_secs = input.schedule_interval_secs;
    offer.schedule_installments = input.schedule_installments;
    offer.max_disbursements = input.schedule_installments;
    offer.status = FinancingLifecycleStatus::Draft;
    offer.terms_locked = false;
    offer.financing_frozen = false;
    offer.clawback_allowed = false;
    offer.freeze_reason_code = 0;
    offer.accepted_by = Key::zero();
    offer.accepted_at = 0;
    offer.rejected_by = Key::zero();
    offer.rejected_at = 0;
    offer.total_disbursed_lamports = 0;
    offer.disbursement_count = 0;
    offer.disbursed_at = 0;
    offer.updated_at = now;
    Ok(())
}

/// The organizer accepts (locking the terms) or rejects an unlocked offer.
///
/// Refused with `ProtocolPaused`, then `FinancingTermsLocked`, with the
/// offer unchanged.
pub fn accept_financing_offer(
    protocol_config: &ProtocolConfig,
    offer: &mut FinancingOffer,
    authority: Key,
    accept: bool,
    now: i64,
) -> (r: Result<(), TicketingError>)
    ensures
        protocol_config.is_paused ==> r == Err::<(), TicketingError>(TicketingError::ProtocolPaused),
        !protocol_config.is_paused && old(offer).terms_locked ==> r == Err::<(), TicketingError>(
            TicketingError::FinancingTermsLocked,
        ),
        !protocol_config.is_paused && !old(offer).terms_locked ==> r is Ok,
        r is Err ==> *final(offer) == *old(offer),
        r is Ok ==> !protocol_config.is_paused && !old(offer).terms_locked && if accept {
            *final(offer) == (FinancingOffer {
                status: FinancingLifecycleStatus::Accepted,
                terms_locked: true,
                accepted_by: authority,
                accepted_at: now,
                rejected_by: final(offer).rejected_by,
                rejected_at: 0,
                updated_at: now,
                ..*old(offer)
            }) && final(offer).rejected_by@ == zero_key()
        } else {
            *final(offer) == (FinancingOffer {
                status: FinancingLifecycleStatus::Rejected,
                terms_locked: false,
                rejected_by: authority,
                rejected_at: now,
                updated_at: now,
                ..*old(offer)
            })
        },
{
    if protocol_config.is_paused {
        return Err(TicketingError::ProtocolPaused);
    }
    if offer.terms_locked {
        return Err(TicketingError::FinancingTermsLocked);
    }
    if accept {
        offer.status = FinancingLifecycleStatus::Accepted;
        offer.terms_locked = true;
        offer.accepted_by = authority;
        offer.accepted_at = now;
        offer.rejected_by = Key::zero();
        offer.rejected_at = 0;
    } else {
        offer.status = FinancingLifecycleStatus::Rejected;
        offer.terms_locked = false;
        offer.rejected_by = authority;
        offer.rejected_at = now;
    }
    offer.updated_at = now;
    Ok(())
}

/// The admin freezes or unfreezes an offer. Clawback permission and the
/// reason are kept only while frozen.
///
/// Refused with `ProtocolPaused`, with the offer unchanged.
pub fn set_financing_freeze(
    protocol_config: &ProtocolConfig,
    offer: &mut FinancingOffer,
    is_frozen: bool,
    reason_code: u16,
    clawback_allowed: bool,
    now: i64,
) -> (r: Result<(), TicketingError>)
    ensures
        protocol_config.is_paused <==> r is Err,
        r is Err ==> r == Err::<(), TicketingError>(TicketingError::ProtocolPaused) && *final(offer) == *old(offer),
        r is Ok ==> *final(offer) == (FinancingOffer {
            financing_frozen: is_frozen,
            clawback_allowed: is_frozen && clawback_allowed,
            freeze_reason_code: if is_frozen {
                reason_code
            } else {
                0
            },
            updated_at: now,
            ..*old(offer)
        }),
{
    if protocol_config.is_paused {
        return Err(TicketingError::ProtocolPaused);
    }
    offer.financing_frozen = is_frozen;
    offer.clawback_allowed = if is_frozen {
        clawback_allowed
    } else {
        false
    };
    offer.freeze_reason_code = if is_frozen {
        reason_code
    } else {
        0
    };
    offer.updated_at = now;
    Ok(())
}

/// The first reason a disbursement is refused, if any.
pub open spec fn disburse_advance_error(
    protocol_config: ProtocolConfig,
    event_account: EventAccount,
    offer: FinancingOffer,
    disburser: Key,
    amount_lamports: u64,
    reference_id: [u8; 16],
) -> Option<TicketingError> {
    if protocol_config.is_paused {
        Some(TicketingError::ProtocolPaused)
    } else if event_account.is_paused {
        Some(TicketingError::EventPaused)
    } else if !(disburser@ == offer.offer_authority@ || disburser@ == protocol_config.admin@) {
        Some(TicketingError::Unauthorized)
    } else if !((offer.status == FinancingLifecycleStatus::Accepted || offer.status
        == FinancingLifecycleStatus::PartiallyDisbursed) && offer.terms_locked) {
        Some(TicketingError::FinancingOfferNotAccepted)
    } else if offer.financing_frozen {
        Some(TicketingError::FinancingFrozen)
    } else if reference_is_blank(reference_id) {
        Some(TicketingError::InvalidDisbursementReference)
    } else if amount_lamports == 0 {
        Some(TicketingError::InvalidDisbursementAmount)
    } else if offer.disbursement_count >= offer.max_disbursements {
        Some(TicketingError::DisbursementLimitExceeded)
    } else if offer.advance_amount_lamports < offer.total_disbursed_lamports {
        Some(TicketingError::MathOverflow)
    } else if amount_lamports > offer.advance_amount_lamports - offer.total_disbursed_lamports {
        Some(TicketingError::InvalidDisbursementAmount)
    } else if offer.max_disbursements == 1 && amount_lamports != offer.advance_amount_lamports {
        Some(TicketingError::InvalidDisbursementAmount)
    } else {
        None
    }
}

/// The offer after a disbursement of `amount`.
pub open spec fn offer_after_disbursement(o: FinancingOffer, amount: u64, now: i64) -> FinancingOffer {
    let total = (o.total_disbursed_lamports + amount) as u64;
    FinancingOffer {
        total_disbursed_lamports: total,
        disbursement_count: (o.disbursement_count + 1) as u16,
        disbursed_at: if o.disbursed_at == 0 {
            now
        } else {
            o.disbursed_at
        },
        status: if total == o.advance_amount_lamports {
            FinancingLifecycleStatus::Disbursed
        } else {
            FinancingLifecycleStatus::PartiallyDisbursed
        },
        updated_at: now,
        ..o
    }
}

/// Pays part (or all) of an accepted advance to the organizer's payout
/// wallet. The offer's authority or the protocol admin may do so.
///
/// Refused, with the offer unchanged, for the first reason of
/// `disburse_advance_error`; otherwise the disburser pays `amount_lamports`,
/// the offer becomes `offer_after_disbursement`, and the record of this
/// disbursement (numbered from one) is returned.
pub fn disburse_advance(
    protocol_config: &ProtocolConfig,
    event_account: &EventAccount,
    offer: &mut FinancingOffer,
    offer_key: Key,
    record_bump: u8,
    disburser: Key,
    payout_wallet: Key,
    amount_lamports: u64,
    reference_id: [u8; 16],
    now: i64,
) -> (r: Result<DisbursementRecord, TicketingError>)
    ensures
        ({
            let err = disburse_advance_error(
                *protocol_config,
                *event_account,
                *old(offer),
                disburser,
                amount_lamports,
                reference_id,
            );
            &&& err is Some ==> r == Err::<DisbursementRecord, TicketingError>(err.unwrap())
                && *final(offer) == *old(offer)
            &&& err is None ==> r == Ok::<DisbursementRecord, TicketingError>(
                DisbursementRecord {
                    bump: record_bump,
                    financing_offer: offer_key,
                    disbursement_index: (old(offer).disbursement_count + 1) as u16,
                    amount_lamports,
                    executed_by: disburser,
                    destination_wallet: payout_wallet,
                    reference_id,
                    executed_at: now,
                    clawed_back: false,
                    clawed_back_at: 0,
                },
            ) && *final(offer) == offer_after_disbursement(*old(offer), amount_lamports, now)
        }),
{
    if protocol_config.is_paused {
        return Err(TicketingError::ProtocolPaused);
    }
    if event_account.is_paused {
        return Err(TicketingError::EventPaused);
    }
    let is_offer_authority = disburser.same(&offer.offer_authority);
    let is_admin = disburser.same(&protocol_config.admin);
    if !(is_offer_authority || is_admin) {
        return Err(TicketingError::Unauthorized);
    }
    let accepted = match offer.status {
        FinancingLifecycleStatus::Accepted => true,
        FinancingLifecycleStatus::PartiallyDisbursed => true,
        _ => false,
    };
    if !(accepted && offer.terms_locked) {
        return Err(TicketingError::FinancingOfferNotAccepted);
    }
    if offer.financing_frozen {
        return Err(TicketingError::FinancingFrozen);
    }
    if is_blank_reference(&reference_id) {
        return Err(TicketingError::InvalidDisbursementReference);
    }
    if amount_lamports == 0 {
        return Err(TicketingError::InvalidDisbursementAmount);
    }
    if offer.disbursement_count >= offer.max_disbursements {
        return Err(TicketingError::DisbursementLimitExceeded);
    }
    let remaining = match offer.advance_amount_lamports.checked_sub(
        offer.total_disbursed_lamports,
    ) {
        Some(v) => v,
        None => return Err(TicketingError::MathOverflow),
    };
    if amount_lamports > remaining {
        return Err(TicketingError::InvalidDisbursementAmount);
    }
    if offer.max_disbursements == 1 && amount_lamports != offer.advance_amount_lamports {
        return Err(TicketingError::InvalidDisbursementAmount);
    }
    let next_index = offer.disbursement_count + 1;
    let total = offer.total_disbursed_lamports + amount_lamports;
    offer.total_disbursed_lamports = total;
    offer.disbursement_count = next_index;
    if offer.disbursed_at == 0 {
        offer.disbursed_at = now;
    }
    offer.status = if total == offer.advance_amount_lamports {
        FinancingLifecycleStatus::Disbursed
    } else {
        FinancingLifecycleStatus::PartiallyDisbursed
    };
    offer.updated_at = now;
    Ok(
        DisbursementRecord {
            bump: record_bump,
            financing_offer: offer_key,
            disbursement_index: next_index,
            amount_lamports,
            executed_by: disburser,
            destination_wallet: payout_wallet,
            reference_id,
            executed_at: now,
            clawed_back: false,
            clawed_back_at: 0,
        },
    )
}

/// The first reason a clawback is refused, if any.
pub open spec fn clawback_error(
    protocol_config: ProtocolConfig,
    offer: FinancingOffer,
    record: DisbursementRecord,
    disbursement_index: u16,
) -> Option<TicketingError> {
    if protocol_config.is_paused {
        Some(TicketingError::ProtocolPaused)
    } else if !offer.financing_frozen {
        Some(TicketingError::FinancingFrozen)
    } else if !offer.clawback_allowed {
        Some(TicketingError::ClawbackNotAllowed)
    } else if record.disbursement_index != disbursement_index {
        Some(TicketingError::Unauthorized)
    } else if record.clawed_back {
        Some(TicketingError::DisbursementAlreadyClawedBack)
    } else if offer.total_disbursed_lamports < record.amount_lamports {
        Some(TicketingError::MathOverflow)
    } else {
        None
    }
}

/// The status an offer has with `total` disbursed.
pub open spec fn status_for_disbursed(total: u64, advance: u64) -> FinancingLifecycleStatus {
    if total == 0 {
        FinancingLifecycleStatus::Accepted
    } else if total < advance {
        FinancingLifecycleStatus::PartiallyDisbursed
    } else {
        FinancingLifecycleStatus::Disbursed
    }
}

/// The admin takes a disbursement back from a frozen offer that allows
/// clawback: the organizer's payout wallet returns the amount to the
/// treasury.
///
/// Refused, with the offer and the record unchanged, for the first reason
/// of `clawback_error`; otherwise returns the amount to move back, the
/// record is marked clawed back, and the offer's disbursed total and status
/// step back.
pub fn clawback_disbursement(
    protocol_config: &ProtocolConfig,
    offer: &mut FinancingOffer,
    record: &mut DisbursementRecord,
    disbursement_index: u16,
    now: i64,
) -> (r: Result<u64, TicketingError>)
    ensures
        ({
            let err = clawback_error(*protocol_config, *old(offer), *old(record), disbursement_index);
            let total = (old(offer).total_disbursed_lamports - old(record).amount_lamports) as u64;
            &&& err is Some ==> r == Err::<u64, TicketingError>(err.unwrap()) && *final(offer)
                == *old(offer) && *final(record) == *old(record)
            &&& err is None ==> r == Ok::<u64, TicketingError>(old(record).amount_lamports)
                && *final(record) == (DisbursementRecord {
                clawed_back: true,
                clawed_back_at: now,
                ..*old(record)
            }) && *final(offer) == (FinancingOffer {
                total_disbursed_lamports: total,
                status: status_for_disbursed(total, old(offer).advance_amount_lamports),
                updated_at: now,
                ..*old(offer)
            })
        }),
{
    if protocol_config.is_paused {
        return Err(TicketingError::ProtocolPaused);
    }
    if !offer.financing_frozen {
        return Err(TicketingError::FinancingFrozen);
    }
    if !offer.clawback_allowed {
        return Err(TicketingError::ClawbackNotAllowed);
    }
    if record.disbursement_index != disbursement_index {
        return Err(TicketingError::Unauthorized);
    }
    if record.clawed_back {
        return Err(TicketingError::DisbursementAlreadyClawedBack);
    }
    let total = match offer.total_disbursed_lamports.checked_sub(record.amount_lamports) {
        Some(v) => v,
        None => return Err(TicketingError::MathOverflow),
    };
    record.clawed_back = true;
    record.clawed_back_at = now;
    offer.total_disbursed_lamports = total;
    offer.status = if total == 0 {
        FinancingLifecycleStatus::Accepted
    } else if total < offer.advance_amount_lamports {
        FinancingLifecycleStatus::PartiallyDisbursed
    } else {
        FinancingLifecycleStatus::Disbursed
    };
    offer.updated_at = now;
    Ok(record.amount_lamports)
}

/// Law: disbursements never pay out more than the advance; an offer that has
/// not over-paid stays so after any allowed disbursement.
pub proof fn law_disbursements_stay_within_advance(
    protocol_config: ProtocolConfig,
    event_account: EventAccount,
    offer: FinancingOffer,
    disburser: Key,
    amount: u64,
    reference_id: [u8; 16],
    now: i64,
)
    requires
        disburse_advance_error(
            protocol_config,
            event_account,
            offer,
            disburser,
            amount,
            reference_id,
        ) is None,
    ensures
        offer_after_disbursement(offer, amount, now).total_disbursed_lamports
            <= offer.advance_amount_lamports,
        offer_after_disbursement(offer, amount, now).total_disbursed_lamports
            == offer.total_disbursed_lamports + amount,
        offer_after_disbursement(offer, amount, now).disbursement_count
            <= offer.max_disbursements,
{
}

} // verus!
