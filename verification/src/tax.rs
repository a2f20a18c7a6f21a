//! The holding tax: a charge on a record's valuation that grows with the time
//! since the record's tax was last settled.

use vstd::prelude::*;
use crate::error::ContractError;

verus! {

/// The rate is given in basis points: ten thousandths of the valuation per
/// elapsed second.
pub const BASIS_POINTS: u128 = 10000;

/// The tax due on `valuation` after `elapsed` seconds at `rate` basis points
/// per second, rounded down.
pub open spec fn tax_amount(valuation: nat, elapsed: nat, rate: nat) -> nat {
    (valuation * elapsed * rate) / (BASIS_POINTS as nat)
}

/// Whether the product that [`tax_amount`] divides fits in 128 bits.
pub open spec fn tax_fits(valuation: nat, elapsed: nat, rate: nat) -> bool {
    valuation * elapsed * rate <= u128::MAX
}

/// The tax due, or `ArithmeticOverflow` where the product of the three
/// operands exceeds 128 bits. Nothing wraps and nothing saturates.
pub fn tax_due(valuation: u128, elapsed_seconds: u64, tax_rate: u64) -> (r: Result<u128, ContractError>)
    ensures
        match r {
            Ok(tax) => tax_fits(valuation as nat, elapsed_seconds as nat, tax_rate as nat)
                && tax == tax_amount(valuation as nat, elapsed_seconds as nat, tax_rate as nat),
            Err(e) => e == ContractError::ArithmeticOverflow
                && !tax_fits(valuation as nat, elapsed_seconds as nat, tax_rate as nat),
        },
        elapsed_seconds == 0 ==> r == Ok::<u128, ContractError>(0),
{
    if elapsed_seconds == 0 || tax_rate == 0 || valuation == 0 {
        proof {
            lemma_zero_operand(valuation as nat, elapsed_seconds as nat, tax_rate as nat);
        }
        return Ok(0);
    }
    let timed: u128 = match valuation.checked_mul(elapsed_seconds as u128) {
        Some(p) => p,
        None => {
            proof {
                lemma_product_grows(valuation as nat * elapsed_seconds as nat, tax_rate as nat);
            }
            return Err(ContractError::ArithmeticOverflow);
        },
    };
    match timed.checked_mul(tax_rate as u128) {
        Some(product) => Ok(product / BASIS_POINTS),
        None => Err(ContractError::ArithmeticOverflow),
    }
}

/// With any operand zero the product is zero, and so is the tax.
pub proof fn lemma_zero_operand(valuation: nat, elapsed: nat, rate: nat)
    requires
        valuation == 0 || elapsed == 0 || rate == 0,
    ensures
        valuation * elapsed * rate == 0,
        tax_fits(valuation, elapsed, rate),
        tax_amount(valuation, elapsed, rate) == 0,
{
    assert(valuation * elapsed * rate == 0) by (nonlinear_arith)
        requires
            valuation == 0 || elapsed == 0 || rate == 0,
    ;
}

/// Multiplying by a positive factor never shrinks a product.
proof fn lemma_product_grows(product: nat, factor: nat)
    requires
        factor >= 1,
    ensures
        product * factor >= product,
{
    assert(product * factor >= product) by (nonlinear_arith)
        requires
            factor >= 1,
    ;
}

/// The tax never falls as time passes: for one valuation and one rate, a
/// longer time gives at least the tax of a shorter one, and where the longer
/// time's tax fits in 128 bits so does the shorter's. No time, no tax.
pub proof fn lemma_tax_monotonic_in_time(valuation: nat, earlier: nat, later: nat, rate: nat)
    requires
        earlier <= later,
    ensures
        tax_amount(valuation, earlier, rate) <= tax_amount(valuation, later, rate),
        tax_fits(valuation, later, rate) ==> tax_fits(valuation, earlier, rate),
        tax_amount(valuation, 0, rate) == 0,
{
    assert(valuation * earlier * rate <= valuation * later * rate) by (nonlinear_arith)
        requires
            earlier <= later,
    ;
    assert((valuation * earlier * rate) / 10000 <= (valuation * later * rate) / 10000)
        by (nonlinear_arith)
        requires
            valuation * earlier * rate <= valuation * later * rate,
    ;
    lemma_zero_operand(valuation, 0, rate);
}

} // verus!
