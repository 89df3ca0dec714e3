//! Fixed-point credit amounts.
//!
//! Amounts and balances are decimal values with six digits after the decimal
//! point, stored as an unsigned count of millionths of a credit.  The fixed
//! scale keeps ledger arithmetic exact: adding or removing credits is plain
//! integer arithmetic, and a balance can never be negative by construction.

use vstd::prelude::*;

verus! {

/// Number of stored units per whole credit (six decimal digits of precision).
pub const MICROS_PER_CREDIT: u64 = 1_000_000;

/// A non-negative decimal quantity of credits, in millionths of a credit.
///
/// `CreditAmount { micros: 100_500_000 }` is 100.5 credits.
#[derive(Clone, Copy, Debug, PartialEq, Eq, Hash, Structural)]
pub struct CreditAmount {
    pub micros: u64,
}

impl CreditAmount {
    /// The zero amount.
    pub fn zero() -> (r: Self)
        ensures
            r.micros == 0,
    {
        CreditAmount { micros: 0 }
    }

    /// An amount given directly in millionths of a credit.
    pub fn from_micros(micros: u64) -> (r: Self)
        ensures
            r.micros == micros,
    {
        CreditAmount { micros }
    }

    /// An amount of `whole` credits.
    pub fn from_whole(whole: u64) -> (r: Self)
        requires
            whole <= u64::MAX / MICROS_PER_CREDIT,
        ensures
            r.micros == whole * MICROS_PER_CREDIT,
    {
        proof {
            assert(whole * MICROS_PER_CREDIT <= (u64::MAX / MICROS_PER_CREDIT) * MICROS_PER_CREDIT)
                by (nonlinear_arith)
                requires
                    whole <= u64::MAX / MICROS_PER_CREDIT,
            ;
        }
        CreditAmount { micros: whole * MICROS_PER_CREDIT }
    }

    /// The stored count of millionths of a credit.
    pub fn micros(&self) -> (r: u64)
        ensures
            r == self.micros,
    {
        self.micros
    }

    /// Whether this amount is exactly zero.
    pub fn is_zero(&self) -> (r: bool)
        ensures
            r == (self.micros == 0),
    {
        self.micros == 0
    }
}

} // verus!
