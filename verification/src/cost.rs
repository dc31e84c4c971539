use vstd::prelude::*;
use crate::EscrowError;
use crate::ratio::lemma_u64_mul_fits_u128;
use vstd::arithmetic::div_mod::{lemma_div_is_ordered, lemma_div_multiples_vanish, lemma_div_pos_is_pos};
use vstd::arithmetic::mul::lemma_mul_inequality;

verus! {

/// The floor of `qty * total_cost / total_qty`: the proportional cost of
/// buying `qty` units out of `total_qty` whose aggregate price is
/// `total_cost`.
pub open spec fn exact_cost(qty: u64, total_qty: u64, total_cost: u64) -> int {
    qty * total_cost / (total_qty as int)
}

/// A fill quantity is payable exactly when it is nonzero, within the vault's
/// balance, and its proportional cost involves no rounding:
/// `total_qty * cost == qty * total_cost` must hold exactly.
pub open spec fn cost_ok(qty: u64, total_qty: u64, total_cost: u64) -> bool {
    &&& qty != 0
    &&& qty <= total_qty
    &&& total_qty * exact_cost(qty, total_qty, total_cost) == qty * total_cost
}

/// When the fill is within the balance, its proportional cost never exceeds
/// the aggregate cost, so it always fits in 64 bits.
pub proof fn lemma_cost_le_total(qty: u64, total_qty: u64, total_cost: u64)
    requires
        0 < qty <= total_qty,
    ensures
        0 <= exact_cost(qty, total_qty, total_cost) <= total_cost,
{
    lemma_mul_inequality(qty as int, total_qty as int, total_cost as int);
    lemma_div_is_ordered(qty * total_cost, total_qty * total_cost, total_qty as int);
    lemma_div_multiples_vanish(total_cost as int, total_qty as int);
    assert(total_qty * total_cost == (total_qty as int) * (total_cost as int));
    if total_cost > 0 {
        lemma_div_pos_is_pos(qty * total_cost, total_qty as int);
    }
}

/// A full fill (`qty == total_qty`) is always exactly divisible and costs the
/// whole aggregate price.
pub proof fn lemma_full_fill_exact(total_qty: u64, total_cost: u64)
    requires
        total_qty > 0,
    ensures
        cost_ok(total_qty, total_qty, total_cost),
        exact_cost(total_qty, total_qty, total_cost) == total_cost,
{
    lemma_div_multiples_vanish(total_cost as int, total_qty as int);
    assert(total_qty * total_cost == (total_qty as int) * (total_cost as int));
}

/// Computes the exact proportional cost for purchasing `qty` units out of
/// `total_qty` units whose aggregate price is `total_cost`, rejecting any
/// quantity whose proportional cost would require rounding. Returns
/// `Ok(cost)` exactly when `qty` is nonzero, within the balance, and
/// `total_qty * cost == qty * total_cost` holds with no remainder.
pub fn get_purchase_cost(qty: u64, total_qty: u64, total_cost: u64) -> (r: Result<u64, EscrowError>)
    ensures
        r matches Ok(c) ==> cost_ok(qty, total_qty, total_cost) && c == exact_cost(qty, total_qty, total_cost),
        r is Err ==> !cost_ok(qty, total_qty, total_cost),
        r matches Err(e) ==> e == EscrowError::InvalidArgument,
{
    if qty == 0 || qty > total_qty {
        return Err(EscrowError::InvalidArgument);
    }

    // cost = (qty / total_qty) * total_cost = (qty * total_cost) / total_qty;
    // exactness demands total_qty * cost == qty * total_cost afterwards.
    proof {
        lemma_u64_mul_fits_u128(qty, total_cost);
        lemma_cost_le_total(qty, total_qty, total_cost);
        lemma_u64_mul_fits_u128(total_qty, total_cost);
    }
    let prod: u128 = (qty as u128) * (total_cost as u128);
    let cost: u128 = prod / (total_qty as u128);
    proof {
        lemma_mul_inequality(cost as int, total_cost as int, total_qty as int);
        assert((total_qty as int) * (cost as int) <= (total_qty as int) * (total_cost as int)) by (nonlinear_arith)
            requires
                cost <= total_cost,
                total_qty >= 0,
        ;
    }
    let lhs: u128 = (total_qty as u128) * cost;
    if lhs != prod {
        return Err(EscrowError::InvalidArgument);
    }
    Ok(cost as u64)
}

} // verus!
