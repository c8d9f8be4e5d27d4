//! Checked arithmetic and basis-point shares.

use vstd::prelude::*;

use crate::error::TicketingError;

verus! {

/// Basis points in one whole.
pub const BPS_DENOMINATOR: u64 = 10_000;

/// `total * bps / 10_000`, rounded down, as an unbounded integer.
pub open spec fn spec_prorata(total: int, bps: int) -> int {
    (total * bps) / 10_000
}

/// The share of `total` that `bps` basis points make, rounded down; refused
/// with `MathOverflow` when that share does not fit in a `u64`.
pub fn prorata_bps(total: u64, bps: u16) -> (r: Result<u64, TicketingError>)
    ensures
        spec_prorata(total as int, bps as int) <= u64::MAX ==> r == Ok::<u64, TicketingError>(
            spec_prorata(total as int, bps as int) as u64,
        ),
        spec_prorata(total as int, bps as int) > u64::MAX ==> r == Err::<u64, TicketingError>(
            TicketingError::MathOverflow,
        ),
{
    let t = total as u128;
    let b = bps as u128;
    assert(t * b <= 0xffff_ffff_ffff_ffffu128 * 0xffffu128) by (nonlinear_arith)
        requires
            t <= 0xffff_ffff_ffff_ffffu128,
            b <= 0xffffu128,
    ;
    let amount: u128 = t * b / 10_000u128;
    if amount <= 0xffff_ffff_ffff_ffffu128 {
        Ok(amount as u64)
    } else {
        Err(TicketingError::MathOverflow)
    }
}

/// Checked arithmetic that reports overflow as `MathOverflow`.
pub trait SafeMath: Sized {
    /// The value as an unbounded integer.
    spec fn spec_value(&self) -> int;

    /// The largest value the type holds.
    spec fn spec_max() -> int;

    fn safe_add(self, rhs: Self) -> (r: Result<Self, TicketingError>)
        ensures
            self.spec_value() + rhs.spec_value() <= Self::spec_max() ==> (r matches Ok(v)
                && v.spec_value() == self.spec_value() + rhs.spec_value()),
            self.spec_value() + rhs.spec_value() > Self::spec_max() ==> r == Err::<
                Self,
                TicketingError,
            >(TicketingError::MathOverflow),
    ;

    fn safe_sub(self, rhs: Self) -> (r: Result<Self, TicketingError>)
        ensures
            self.spec_value() >= rhs.spec_value() ==> (r matches Ok(v) && v.spec_value()
                == self.spec_value() - rhs.spec_value()),
            self.spec_value() < rhs.spec_value() ==> r == Err::<Self, TicketingError>(
                TicketingError::MathOverflow,
            ),
    ;

    fn safe_mul(self, rhs: Self) -> (r: Result<Self, TicketingError>)
        ensures
            self.spec_value() * rhs.spec_value() <= Self::spec_max() ==> (r matches Ok(v)
                && v.spec_value() == self.spec_value() * rhs.spec_value()),
            self.spec_value() * rhs.spec_value() > Self::spec_max() ==> r == Err::<
                Self,
                TicketingError,
            >(TicketingError::MathOverflow),
    ;
}

impl SafeMath for u64 {
    open spec fn spec_value(&self) -> int {
        *self as int
    }

    open spec fn spec_max() -> int {
        u64::MAX as int
    }

    fn safe_add(self, rhs: Self) -> (r: Result<Self, TicketingError>) {
        match self.checked_add(rhs) {
            Some(v) => Ok(v),
            None => Err(TicketingError::MathOverflow),
        }
    }

    fn safe_sub(self, rhs: Self) -> (r: Result<Self, TicketingError>) {
        match self.checked_sub(rhs) {
            Some(v) => Ok(v),
            None => Err(TicketingError::MathOverflow),
        }
    }

    fn safe_mul(self, rhs: Self) -> (r: Result<Self, TicketingError>) {
        match self.checked_mul(rhs) {
            Some(v) => Ok(v),
            None => Err(TicketingError::MathOverflow),
        }
    }
}

impl SafeMath for u32 {
    open spec fn spec_value(&self) -> int {
        *self as int
    }

    open spec fn spec_max() -> int {
        u32::MAX as int
    }

    fn safe_add(self, rhs: Self) -> (r: Result<Self, TicketingError>) {
        match self.checked_add(rhs) {
            Some(v) => Ok(v),
            None => Err(TicketingError::MathOverflow),
        }
    }

    fn safe_sub(self, rhs: Self) -> (r: Result<Self, TicketingError>) {
        match self.checked_sub(rhs) {
            Some(v) => Ok(v),
            None => Err(TicketingError::MathOverflow),
        }
    }

    fn safe_mul(self, rhs: Self) -> (r: Result<Self, TicketingError>) {
        match self.checked_mul(rhs) {
            Some(v) => Ok(v),
            None => Err(TicketingError::MathOverflow),
        }
    }
}

} // verus!
