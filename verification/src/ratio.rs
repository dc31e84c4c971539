use vstd::prelude::*;
use crate::EscrowError;

verus! {

/// An added (cost, quantity) pair is acceptable exactly when it is nonzero in
/// both parts and exactly proportional to the current pair, by
/// cross-multiplication: `current_qty * add_cost == current_cost * add_qty`.
/// When the current pair is (0, 0) (a first deposit) any nonzero pair passes.
pub open spec fn ratio_ok(current_cost: u64, add_cost: u64, current_qty: u64, add_qty: u64) -> bool {
    &&& add_cost != 0
    &&& add_qty != 0
    &&& current_qty * add_cost == current_cost * add_qty
}

/// Validates that an added (cost, quantity) pair keeps the escrow's price
/// ratio exact. The cross-products are formed in 128-bit precision, so they
/// can never overflow for 64-bit operands.
pub fn check_tender_args(current_cost: u64, add_cost: u64, current_qty: u64, add_qty: u64) -> (r: Result<(), EscrowError>)
    ensures
        r is Ok <==> ratio_ok(current_cost, add_cost, current_qty, add_qty),
        r matches Err(e) ==> e == EscrowError::InvalidArgument,
{
    if add_cost == 0 || add_qty == 0 {
        return Err(EscrowError::InvalidArgument);
    }

    // In real numbers the requirement is
    //   (current_cost + add_cost) / current_cost == (current_qty + add_qty) / current_qty,
    // which is algebraically equivalent to
    //   current_qty * add_cost == current_cost * add_qty.
    proof {
        lemma_u64_mul_fits_u128(current_qty, add_cost);
        lemma_u64_mul_fits_u128(current_cost, add_qty);
    }
    let lhs: u128 = (current_qty as u128) * (add_cost as u128);
    let rhs: u128 = (current_cost as u128) * (add_qty as u128);
    if lhs != rhs {
        return Err(EscrowError::InvalidArgument);
    }
    Ok(())
}

/// The product of two 64-bit values always fits in 128 bits.
pub proof fn lemma_u64_mul_fits_u128(a: u64, b: u64)
    ensures
        a * b <= u128::MAX,
{
    assert(a * b <= (u64::MAX as int) * (u64::MAX as int)) by (nonlinear_arith)
        requires
            a <= u64::MAX,
            b <= u64::MAX,
    ;
}

} // verus!
