use vstd::prelude::*;
use crate::arith::{checked_add, checked_div, checked_mul, checked_sub};
use crate::error::PredictionMarketError;

verus! {

/// One step along the constant-product curve: an amount was added to one reserve and the
/// other reserve was recomputed from the product of the two.
#[derive(Clone, Copy, Debug, PartialEq, Eq, Structural)]
pub struct CurveStep {
    /// The reserve that was added to, after the step.
    pub added_reserve: u64,
    /// The reserve that was drawn from, after the step.
    pub drawn_reserve: u64,
    /// What left the drawn reserve.
    pub amount_out: u64,
}

/// The product of two reserves, the quantity the curve holds on to.
pub open spec fn product(a: int, b: int) -> int {
    a * b
}

/// The drawn reserve after `amount` is added to the other one: `floor(k / (added + amount))`
/// with `k` the product of the two reserves before the step.
pub open spec fn drawn_after(added: int, drawn: int, amount: int) -> int {
    product(drawn, added) / (added + amount)
}

/// The step as the checked 64-bit operations compute it. It fails where the product of
/// the reserves or the new added reserve does not fit, and where the new added reserve is
/// zero; the final subtraction never fails.
pub open spec fn curve_step_spec(added: u64, drawn: u64, amount: u64) -> Result<
    CurveStep,
    PredictionMarketError,
> {
    if drawn * added > u64::MAX || added + amount > u64::MAX || added + amount == 0 {
        Err(PredictionMarketError::ArithmeticOverflow)
    } else {
        Ok(
            CurveStep {
                added_reserve: (added + amount) as u64,
                drawn_reserve: drawn_after(added as int, drawn as int, amount as int) as u64,
                amount_out: (drawn - drawn_after(added as int, drawn as int, amount as int)) as u64,
            },
        )
    }
}

/// The recomputed reserve lies between zero and the reserve it replaces.
pub proof fn lemma_drawn_after_bounds(added: int, drawn: int, amount: int)
    requires
        0 <= added,
        0 <= drawn,
        0 <= amount,
        0 < added + amount,
    ensures
        0 <= drawn_after(added, drawn, amount) <= drawn,
{
    let k = drawn * added;
    let d = added + amount;
    assert(0 <= k <= drawn * d) by (nonlinear_arith)
        requires
            0 <= added,
            0 <= drawn,
            0 <= amount,
            k == drawn * added,
            d == added + amount,
    ;
    vstd::arithmetic::div_mod::lemma_div_pos_is_pos(k, d);
    vstd::arithmetic::div_mod::lemma_div_is_ordered(k, drawn * d, d);
    vstd::arithmetic::div_mod::lemma_div_by_multiple(drawn, d);
}

/// Adds `amount` to the reserve `added` and recomputes the reserve `drawn` so that the
/// product of the two is kept, rounding the recomputed reserve down.
pub fn curve_step(added: u64, drawn: u64, amount: u64) -> (res: Result<
    CurveStep,
    PredictionMarketError,
>)
    ensures
        res == curve_step_spec(added, drawn, amount),
{
    let k = checked_mul(drawn, added)?;
    let added_reserve = checked_add(added, amount)?;
    let drawn_reserve = checked_div(k, added_reserve)?;
    proof {
        lemma_drawn_after_bounds(added as int, drawn as int, amount as int);
    }
    let amount_out = checked_sub(drawn, drawn_reserve)?;
    Ok(CurveStep { added_reserve, drawn_reserve, amount_out })
}

/// What the rounding of a step takes off the product: the remainder of the product of
/// the reserves on division by the new added reserve.
pub open spec fn rounding_of(added: int, drawn: int, amount: int) -> int {
    product(drawn, added) % (added + amount)
}

/// The smallest whole number of units of `unit` that covers `value`.
pub open spec fn units_covering(value: int, unit: int) -> int {
    (value + unit - 1) / unit
}

/// A step keeps the product of the reserves up to its rounding: the new product is the
/// old one less the rounding, and the rounding is less than the new added reserve.
pub proof fn lemma_step_product(added: int, drawn: int, amount: int)
    requires
        0 <= added,
        0 <= drawn,
        0 <= amount,
        0 < added + amount,
    ensures
        product(drawn_after(added, drawn, amount), added + amount) == product(drawn, added)
            - rounding_of(added, drawn, amount),
        0 <= rounding_of(added, drawn, amount) < added + amount,
{
    let k = drawn * added;
    let d = added + amount;
    vstd::arithmetic::div_mod::lemma_fundamental_div_mod(k, d);
    vstd::arithmetic::div_mod::lemma_mod_bound(k, d);
    assert((k / d) * d == d * (k / d)) by (nonlinear_arith);
}

/// What leaves the drawn reserve in a step is the smallest number of shares whose worth
/// at the new added reserve covers the worth of the amount at the old drawn reserve.
pub proof fn lemma_step_out(added: int, drawn: int, amount: int)
    requires
        0 <= added,
        0 <= drawn,
        0 <= amount,
        0 < added + amount,
    ensures
        drawn - drawn_after(added, drawn, amount) == units_covering(
            drawn * amount,
            added + amount,
        ),
{
    let k = drawn * added;
    let d = added + amount;
    let q = k / d;
    let r = k % d;
    vstd::arithmetic::div_mod::lemma_fundamental_div_mod(k, d);
    vstd::arithmetic::div_mod::lemma_mod_bound(k, d);
    // drawn * amount + d - 1 == (drawn - q) * d + (d - 1 - r)
    assert(drawn * amount + d - 1 == (drawn - q) * d + (d - 1 - r)) by (nonlinear_arith)
        requires
            k == drawn * added,
            d == added + amount,
            k == d * q + r,
    ;
    vstd::arithmetic::div_mod::lemma_fundamental_div_mod_converse_div(
        drawn * amount + d - 1,
        d,
        drawn - q,
        d - 1 - r,
    );
}

/// Of two steps of the same amount, one after the other on the same reserves, the second
/// hands out no more than the first.
pub proof fn lemma_successive_steps(added: int, drawn: int, amount: int)
    requires
        0 <= added,
        0 <= drawn,
        0 <= amount,
        0 < added + amount,
    ensures
        ({
            let drawn_1 = drawn_after(added, drawn, amount);
            let drawn_2 = drawn_after(added + amount, drawn_1, amount);
            drawn_1 - drawn_2 <= drawn - drawn_1
        }),
{
    let a1 = added + amount;
    let a2 = a1 + amount;
    let d1 = drawn_after(added, drawn, amount);
    lemma_drawn_after_bounds(added, drawn, amount);
    lemma_step_out(added, drawn, amount);
    lemma_step_out(a1, d1, amount);
    // The worth to cover falls and the reserve it is measured at grows.
    let x1 = drawn * amount;
    let x2 = d1 * amount;
    assert(0 <= x2 <= x1) by (nonlinear_arith)
        requires
            0 <= d1 <= drawn,
            0 <= amount,
            x1 == drawn * amount,
            x2 == d1 * amount,
    ;
    vstd::arithmetic::div_mod::lemma_div_is_ordered(x2 + a2 - 1, x1 + a2 - 1, a2);
    // (x1 + a2 - 1) / a2 <= (x1 + a1 - 1) / a1
    let c1 = (x1 + a1 - 1) / a1;
    vstd::arithmetic::div_mod::lemma_fundamental_div_mod(x1 + a1 - 1, a1);
    vstd::arithmetic::div_mod::lemma_mod_bound(x1 + a1 - 1, a1);
    vstd::arithmetic::div_mod::lemma_div_pos_is_pos(x1 + a1 - 1, a1);
    assert(x1 + a2 - 1 < (c1 + 1) * a2) by (nonlinear_arith)
        requires
            x1 + a1 - 1 == a1 * c1 + (x1 + a1 - 1) % a1,
            0 <= (x1 + a1 - 1) % a1 < a1,
            a2 == a1 + amount,
            0 <= amount,
            0 <= c1,
            0 < a1,
    ;
    vstd::arithmetic::div_mod::lemma_div_by_multiple_is_strongly_ordered(
        x1 + a2 - 1,
        (c1 + 1) * a2,
        c1 + 1,
        a2,
    );
    vstd::arithmetic::div_mod::lemma_div_by_multiple(c1 + 1, a2);
}

/// A step undone at once: when what a step drew is put back into the drawn reserve, that
/// reserve is as it was before, and the other reserve pays out the amount that the step
/// had added and, on top of it, one unit for each started unit of the old drawn reserve
/// in the rounding of the step.
pub proof fn lemma_step_and_back(added: int, drawn: int, amount: int)
    requires
        0 <= added,
        0 < drawn,
        0 <= amount,
        0 < added + amount,
    ensures
        ({
            let added_1 = added + amount;
            let drawn_1 = drawn_after(added, drawn, amount);
            let out = drawn - drawn_1;
            &&& drawn_1 + out == drawn
            &&& added_1 - drawn_after(drawn_1, added_1, out) == amount + units_covering(
                rounding_of(added, drawn, amount),
                drawn,
            )
        }),
{
    let a1 = added + amount;
    let d1 = drawn_after(added, drawn, amount);
    let r = rounding_of(added, drawn, amount);
    lemma_step_product(added, drawn, amount);
    let c = units_covering(r, drawn);
    vstd::arithmetic::div_mod::lemma_fundamental_div_mod(r + drawn - 1, drawn);
    vstd::arithmetic::div_mod::lemma_mod_bound(r + drawn - 1, drawn);
    let m = (r + drawn - 1) % drawn;
    // a1 * d1 == (added - c) * drawn + (drawn - 1 - m)
    assert(a1 * d1 == (added - c) * drawn + (drawn - 1 - m)) by (nonlinear_arith)
        requires
            d1 * a1 == drawn * added - r,
            r + drawn - 1 == drawn * c + m,
    ;
    vstd::arithmetic::div_mod::lemma_fundamental_div_mod_converse_div(
        a1 * d1,
        drawn,
        added - c,
        drawn - 1 - m,
    );
    assert(product(a1, d1) == a1 * d1);
}

} // verus!
