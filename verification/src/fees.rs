//! The swap's fee schedule and the operations derived from it.
//!
//! `Fees` holds four independent fee rates, each a numerator/denominator
//! pair of unsigned 64-bit integers. The `FeeCalculator` capability
//! derives concrete fee amounts from a rate and a token amount through
//! the safe multiply-divide primitives; every operation returns `None`
//! instead of wrapping or panicking when the result is not representable,
//! and a zero denominator makes the corresponding fee absent rather than
//! a fault.

use crate::math::mul_div;
use crate::math::mul_div_imbalanced;
use crate::math::mul_div_imbalanced_spec;
use crate::math::mul_div_spec;
use vstd::prelude::*;

verus! {

/// Fee configuration for a swap pool: four rational fee rates. A
/// numerator may exceed its denominator (a fee above 100% is the
/// caller's responsibility); a zero denominator makes the corresponding
/// fee computation return `None`.
#[derive(Clone, Copy, Debug, PartialEq, Eq, Structural)]
pub struct Fees {
    /// Trade fee rate, numerator.
    pub trade_fee_numerator: u64,
    /// Trade fee rate, denominator.
    pub trade_fee_denominator: u64,
    /// Admin share of the trade fee, numerator.
    pub admin_trade_fee_numerator: u64,
    /// Admin share of the trade fee, denominator.
    pub admin_trade_fee_denominator: u64,
    /// Admin share of the withdraw fee, numerator.
    pub admin_withdraw_fee_numerator: u64,
    /// Admin share of the withdraw fee, denominator.
    pub admin_withdraw_fee_denominator: u64,
    /// Withdraw fee rate, numerator.
    pub withdraw_fee_numerator: u64,
    /// Withdraw fee rate, denominator.
    pub withdraw_fee_denominator: u64,
}

/// The value `normalized_trade_fee(n_coins, amount)` returns for a fee
/// schedule `f`.
///
/// The trade fee numerator is first rescaled to
/// `floor(trade_fee_numerator * n_coins / (4 * (n_coins - 1)))`, so that
/// a larger balanced pool charges proportionally less per asset; the fee
/// is then `floor(amount * adjusted / trade_fee_denominator)`. The
/// result is absent when `n_coins == 0` (the subtraction underflows),
/// when `4 * (n_coins - 1)` overflows the 8-bit coin count, when
/// `n_coins == 1` (the divisor collapses to zero), and whenever either
/// multiply-divide step is absent.
pub open spec fn normalized_trade_fee_spec(f: Fees, n_coins: u8, amount: u64) -> Option<u64> {
    if n_coins == 0 {
        None
    } else if 4 * ((n_coins - 1) as int) > u8::MAX {
        None
    } else {
        match mul_div_spec(f.trade_fee_numerator, n_coins as u64, (4 * (n_coins - 1)) as u64) {
            Some(adjusted) => mul_div_spec(amount, adjusted, f.trade_fee_denominator),
            None => None,
        }
    }
}

/// Calculates fees.
pub trait FeeCalculator {
    /// The fee schedule the calculator applies.
    spec fn fee_schedule(&self) -> Fees;

    /// Applies the admin trade fee.
    fn admin_trade_fee(&self, fee_amount: u64) -> (r: Option<u64>)
        ensures
            r == mul_div_imbalanced_spec(
                fee_amount,
                self.fee_schedule().admin_trade_fee_numerator,
                self.fee_schedule().admin_trade_fee_denominator,
            ),
    ;

    /// Applies the admin withdraw fee.
    fn admin_withdraw_fee(&self, fee_amount: u64) -> (r: Option<u64>)
        ensures
            r == mul_div_imbalanced_spec(
                fee_amount,
                self.fee_schedule().admin_withdraw_fee_numerator,
                self.fee_schedule().admin_withdraw_fee_denominator,
            ),
    ;

    /// Applies the trade fee.
    fn trade_fee(&self, trade_amount: u64) -> (r: Option<u64>)
        ensures
            r == mul_div_imbalanced_spec(
                trade_amount,
                self.fee_schedule().trade_fee_numerator,
                self.fee_schedule().trade_fee_denominator,
            ),
    ;

    /// Applies the withdraw fee.
    fn withdraw_fee(&self, withdraw_amount: u64) -> (r: Option<u64>)
        ensures
            r == mul_div_imbalanced_spec(
                withdraw_amount,
                self.fee_schedule().withdraw_fee_numerator,
                self.fee_schedule().withdraw_fee_denominator,
            ),
    ;

    /// Applies the normalized trade fee.
    fn normalized_trade_fee(&self, n_coins: u8, amount: u64) -> (r: Option<u64>)
        ensures
            r == normalized_trade_fee_spec(self.fee_schedule(), n_coins, amount),
            n_coins == 0 ==> r is None,
            n_coins == 1 ==> r is None,
    ;
}

impl FeeCalculator for Fees {
    /// A `Fees` value is its own fee schedule.
    open spec fn fee_schedule(&self) -> Fees {
        *self
    }

    /// Apply admin trade fee
    fn admin_trade_fee(&self, fee_amount: u64) -> Option<u64> {
        mul_div_imbalanced(
            fee_amount,
            self.admin_trade_fee_numerator,
            self.admin_trade_fee_denominator,
        )
    }

    /// Apply admin withdraw fee
    fn admin_withdraw_fee(&self, fee_amount: u64) -> Option<u64> {
        mul_div_imbalanced(
            fee_amount,
            self.admin_withdraw_fee_numerator,
            self.admin_withdraw_fee_denominator,
        )
    }

    /// Compute trade fee from amount
    fn trade_fee(&self, trade_amount: u64) -> Option<u64> {
        mul_div_imbalanced(trade_amount, self.trade_fee_numerator, self.trade_fee_denominator)
    }

    /// Compute withdraw fee from amount
    fn withdraw_fee(&self, withdraw_amount: u64) -> Option<u64> {
        mul_div_imbalanced(
            withdraw_amount,
            self.withdraw_fee_numerator,
            self.withdraw_fee_denominator,
        )
    }

    /// Compute normalized fee for symmetric/asymmetric deposits/withdraws
    fn normalized_trade_fee(&self, n_coins: u8, amount: u64) -> Option<u64> {
        let pool_divisor: u8 = match n_coins.checked_sub(1) {
            Some(d) => match d.checked_mul(4) {
                Some(m) => m,
                None => {
                    return None;
                },
            },
            None => {
                return None;
            },
        };
        let adjusted_trade_fee_numerator: u64 = match mul_div(
            self.trade_fee_numerator,
            n_coins as u64,
            pool_divisor as u64,
        ) {
            Some(adjusted) => adjusted,
            None => {
                return None;
            },
        };
        mul_div(amount, adjusted_trade_fee_numerator, self.trade_fee_denominator)
    }
}

/// The four flat fee operations are deterministic: their contracts pin
/// the result to `mul_div_imbalanced_spec` of the amount and the rate
/// pair alone, so two calls with identical inputs agree.
pub proof fn lemma_fee_op_deterministic(
    amount: u64,
    numerator: u64,
    denominator: u64,
    first: Option<u64>,
    second: Option<u64>,
)
    requires
        first == mul_div_imbalanced_spec(amount, numerator, denominator),
        second == mul_div_imbalanced_spec(amount, numerator, denominator),
    ensures
        first == second,
{
}

/// The normalized trade fee is deterministic: its contract pins the
/// result to a function of the fee schedule, the coin count and the
/// amount alone, so two calls with identical inputs agree.
pub proof fn lemma_normalized_trade_fee_deterministic(
    f: Fees,
    n_coins: u8,
    amount: u64,
    first: Option<u64>,
    second: Option<u64>,
)
    requires
        first == normalized_trade_fee_spec(f, n_coins, amount),
        second == normalized_trade_fee_spec(f, n_coins, amount),
    ensures
        first == second,
{
}

} // verus!
