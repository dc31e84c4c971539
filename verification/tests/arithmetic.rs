use escrow::EscrowError;
use escrow::ratio::check_tender_args;
use escrow::cost::get_purchase_cost;

#[test]
fn first_deposit_any_nonzero_pair_passes() {
    assert_eq!(check_tender_args(0, 100, 0, 10), Ok(()));
    assert_eq!(check_tender_args(0, 1, 0, u64::MAX), Ok(()));
    assert_eq!(check_tender_args(0, u64::MAX, 0, 1), Ok(()));
}

#[test]
fn zero_cost_or_quantity_rejected() {
    assert_eq!(check_tender_args(0, 0, 0, 10), Err(EscrowError::InvalidArgument));
    assert_eq!(check_tender_args(0, 100, 0, 0), Err(EscrowError::InvalidArgument));
    assert_eq!(check_tender_args(100, 0, 10, 0), Err(EscrowError::InvalidArgument));
}

#[test]
fn proportional_addition_passes() {
    assert_eq!(check_tender_args(100, 50, 10, 5), Ok(()));
    assert_eq!(check_tender_args(100, 100, 10, 10), Ok(()));
    assert_eq!(check_tender_args(3, 6, 2, 4), Ok(()));
}

#[test]
fn disproportionate_addition_rejected() {
    assert_eq!(check_tender_args(100, 50, 10, 6), Err(EscrowError::InvalidArgument));
    assert_eq!(check_tender_args(100, 51, 10, 5), Err(EscrowError::InvalidArgument));
}

#[test]
fn large_cross_products_are_exact() {
    // 128-bit cross-multiplication: no overflow even at the 64-bit extremes.
    assert_eq!(check_tender_args(u64::MAX, u64::MAX, u64::MAX, u64::MAX), Ok(()));
    assert_eq!(
        check_tender_args(u64::MAX, u64::MAX, u64::MAX, u64::MAX - 1),
        Err(EscrowError::InvalidArgument)
    );
}

#[test]
fn purchase_cost_exact_division() {
    assert_eq!(get_purchase_cost(4, 10, 100), Ok(40));
    assert_eq!(get_purchase_cost(3, 6, 60), Ok(30));
    assert_eq!(get_purchase_cost(10, 10, 100), Ok(100));
    assert_eq!(get_purchase_cost(1, 10, 100), Ok(10));
}

#[test]
fn purchase_cost_exactness_identity_holds() {
    // total_qty * cost == qty * total_cost, checked on concrete values.
    let qty: u64 = 4;
    let total_qty: u64 = 10;
    let total_cost: u64 = 100;
    let cost = get_purchase_cost(qty, total_qty, total_cost).unwrap();
    assert_eq!(
        (total_qty as u128) * (cost as u128),
        (qty as u128) * (total_cost as u128)
    );
}

#[test]
fn purchase_cost_rejects_rounding() {
    // 4 * 35 / 6 would round: refused rather than silently rounded.
    assert_eq!(get_purchase_cost(4, 6, 35), Err(EscrowError::InvalidArgument));
    assert_eq!(get_purchase_cost(3, 10, 101), Err(EscrowError::InvalidArgument));
    assert_eq!(get_purchase_cost(7, 9, 30), Err(EscrowError::InvalidArgument));
}

#[test]
fn purchase_cost_rejects_zero_and_excess_quantity() {
    assert_eq!(get_purchase_cost(0, 10, 100), Err(EscrowError::InvalidArgument));
    assert_eq!(get_purchase_cost(11, 10, 100), Err(EscrowError::InvalidArgument));
    assert_eq!(get_purchase_cost(1, 0, 100), Err(EscrowError::InvalidArgument));
}

#[test]
fn purchase_cost_large_values() {
    assert_eq!(get_purchase_cost(1, u64::MAX, u64::MAX), Ok(1));
    assert_eq!(get_purchase_cost(u64::MAX, u64::MAX, u64::MAX), Ok(u64::MAX));
    assert_eq!(get_purchase_cost(2, 4, u64::MAX), Err(EscrowError::InvalidArgument));
}
