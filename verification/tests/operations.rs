use escrow::EscrowError;
use escrow::state::{Escrow, EscrowAccount, Tender, TenderFromMint, Purchase, Cancel, Burn};

fn fresh() -> Escrow {
    Escrow {
        exists: false,
        account: EscrowAccount { total_purchase_cost: 0, bump_seed: 0 },
        vault_amount: 0,
    }
}

fn funded(cost: u64, qty: u64) -> Escrow {
    let mut e = fresh();
    let mut t = Tender { sell_from_amount: qty };
    assert_eq!(e.tender(&mut t, 250, cost, qty), Ok(()));
    e
}

#[test]
fn tender_creates_record_and_moves_deposit() {
    let mut e = fresh();
    let mut t = Tender { sell_from_amount: 40 };
    assert_eq!(e.tender(&mut t, 254, 100, 10), Ok(()));
    assert!(e.exists);
    assert_eq!(e.account.total_purchase_cost, 100);
    assert_eq!(e.account.bump_seed, 254);
    assert_eq!(e.vault_amount, 10);
    assert_eq!(t.sell_from_amount, 30);
}

#[test]
fn tender_insufficient_depositor_balance_fails() {
    let mut e = fresh();
    let mut t = Tender { sell_from_amount: 9 };
    assert_eq!(e.tender(&mut t, 254, 100, 10), Err(EscrowError::InsufficientFunds));
    assert!(!e.exists);
    assert_eq!(t.sell_from_amount, 9);
}

#[test]
fn layered_proportional_deposits_accumulate() {
    let mut e = fresh();
    let mut t = Tender { sell_from_amount: 100 };
    assert_eq!(e.tender(&mut t, 254, 100, 10), Ok(()));
    assert_eq!(e.tender(&mut t, 254, 50, 5), Ok(()));
    assert_eq!(e.account.total_purchase_cost, 150);
    assert_eq!(e.vault_amount, 15);
    assert_eq!(t.sell_from_amount, 85);
}

#[test]
fn disproportionate_second_deposit_rejected_unchanged() {
    let mut e = fresh();
    let mut t = Tender { sell_from_amount: 100 };
    assert_eq!(e.tender(&mut t, 254, 100, 10), Ok(()));
    let before = e;
    let balance_before = t.sell_from_amount;
    assert_eq!(e.tender(&mut t, 254, 50, 6), Err(EscrowError::InvalidArgument));
    assert_eq!(e, before);
    assert_eq!(t.sell_from_amount, balance_before);
}

#[test]
fn tender_from_mint_raises_supply_into_vault() {
    let mut e = fresh();
    let mut m = TenderFromMint { mint_supply: 1_000 };
    assert_eq!(e.tender_from_mint(&mut m, 200, 100, 10), Ok(()));
    assert!(e.exists);
    assert_eq!(e.account.total_purchase_cost, 100);
    assert_eq!(e.vault_amount, 10);
    assert_eq!(m.mint_supply, 1_010);
    // A disproportionate follow-up mints nothing.
    assert_eq!(e.tender_from_mint(&mut m, 200, 55, 5), Err(EscrowError::InvalidArgument));
    assert_eq!(m.mint_supply, 1_010);
    // A proportional one layers on.
    assert_eq!(e.tender_from_mint(&mut m, 200, 50, 5), Ok(()));
    assert_eq!(e.account.total_purchase_cost, 150);
    assert_eq!(e.vault_amount, 15);
    assert_eq!(m.mint_supply, 1_015);
}

#[test]
fn full_purchase_pays_cost_delivers_qty_and_closes() {
    let mut e = funded(100, 10);
    let mut p = Purchase { buy_from_amount: 500, seller_proceeds_amount: 7, buy_to_amount: 3 };
    assert_eq!(e.purchase(&mut p), Ok(()));
    assert!(!e.exists);
    assert_eq!(e.account.total_purchase_cost, 0);
    assert_eq!(e.vault_amount, 0);
    assert_eq!(p.buy_from_amount, 400);
    assert_eq!(p.seller_proceeds_amount, 107);
    assert_eq!(p.buy_to_amount, 13);
}

#[test]
fn purchase_insufficient_buyer_funds_fails_unchanged() {
    let mut e = funded(100, 10);
    let mut p = Purchase { buy_from_amount: 99, seller_proceeds_amount: 0, buy_to_amount: 0 };
    assert_eq!(e.purchase(&mut p), Err(EscrowError::InsufficientFunds));
    assert!(e.exists);
    assert_eq!(e.account.total_purchase_cost, 100);
    assert_eq!(e.vault_amount, 10);
    assert_eq!(p.buy_from_amount, 99);
    assert_eq!(p.seller_proceeds_amount, 0);
    assert_eq!(p.buy_to_amount, 0);
}

#[test]
fn partial_purchase_scenario_exact_charges() {
    // Deposit (cost=100, qty=10); buying 4 charges exactly 40, leaving
    // cost=60, balance=6; buying 3 of the remainder charges exactly 30.
    let mut e = funded(100, 10);
    let mut p = Purchase { buy_from_amount: 1_000, seller_proceeds_amount: 0, buy_to_amount: 0 };
    assert_eq!(e.purchase_partial(&mut p, 4), Ok(()));
    assert!(e.exists);
    assert_eq!(e.account.total_purchase_cost, 60);
    assert_eq!(e.vault_amount, 6);
    assert_eq!(p.seller_proceeds_amount, 40);
    assert_eq!(p.buy_to_amount, 4);

    assert_eq!(e.purchase_partial(&mut p, 3), Ok(()));
    assert!(e.exists);
    assert_eq!(e.account.total_purchase_cost, 30);
    assert_eq!(e.vault_amount, 3);
    assert_eq!(p.seller_proceeds_amount, 70);
    assert_eq!(p.buy_to_amount, 7);
}

#[test]
fn indivisible_partial_purchase_rejected() {
    // balance=6, cost=35, qty=4 does not divide exactly: rejected.
    let mut e = funded(35, 6);
    let mut p = Purchase { buy_from_amount: 1_000, seller_proceeds_amount: 0, buy_to_amount: 0 };
    let before = e;
    assert_eq!(e.purchase_partial(&mut p, 4), Err(EscrowError::InvalidArgument));
    assert_eq!(e, before);
    assert_eq!(p.seller_proceeds_amount, 0);
    assert_eq!(p.buy_to_amount, 0);
}

#[test]
fn repeated_partial_fills_equal_one_full_fill() {
    let mut single = funded(100, 10);
    let mut p_single = Purchase { buy_from_amount: 1_000, seller_proceeds_amount: 0, buy_to_amount: 0 };
    assert_eq!(single.purchase(&mut p_single), Ok(()));

    let mut split = funded(100, 10);
    let mut p_split = Purchase { buy_from_amount: 1_000, seller_proceeds_amount: 0, buy_to_amount: 0 };
    assert_eq!(split.purchase_partial(&mut p_split, 4), Ok(()));
    assert_eq!(split.purchase_partial(&mut p_split, 5), Ok(()));
    assert_eq!(split.purchase_partial(&mut p_split, 1), Ok(()));

    assert_eq!(p_split.seller_proceeds_amount, p_single.seller_proceeds_amount);
    assert_eq!(p_split.buy_to_amount, p_single.buy_to_amount);
    assert!(!split.exists);
    assert_eq!(split, single);
}

#[test]
fn purchase_of_zero_quantity_rejected() {
    let mut e = funded(100, 10);
    let mut p = Purchase { buy_from_amount: 1_000, seller_proceeds_amount: 0, buy_to_amount: 0 };
    assert_eq!(e.purchase_partial(&mut p, 0), Err(EscrowError::InvalidArgument));
    assert_eq!(e.purchase_partial(&mut p, 11), Err(EscrowError::InvalidArgument));
}

#[test]
fn cancel_returns_deposit_and_deletes_record() {
    let mut e = funded(100, 10);
    let mut c = Cancel { sell_from_amount: 2 };
    assert_eq!(e.cancel(&mut c), Ok(()));
    assert!(!e.exists);
    assert_eq!(e.vault_amount, 0);
    assert_eq!(c.sell_from_amount, 12);
}

#[test]
fn burn_full_balance_closes_without_transfer() {
    let mut e = funded(100, 10);
    let mut b = Burn { mint_supply: 50 };
    assert_eq!(e.burn(&mut b, 10), Ok(()));
    assert!(!e.exists);
    assert_eq!(e.vault_amount, 0);
    // Destroyed, not transferred: total supply shrank by the burnt quantity.
    assert_eq!(b.mint_supply, 40);
}

#[test]
fn burn_partial_keeps_cost_unchanged() {
    let mut e = funded(100, 10);
    let mut b = Burn { mint_supply: 50 };
    assert_eq!(e.burn(&mut b, 4), Ok(()));
    assert!(e.exists);
    assert_eq!(e.vault_amount, 6);
    // Deliberate design point: the outstanding cost does not drop.
    assert_eq!(e.account.total_purchase_cost, 100);
    assert_eq!(b.mint_supply, 46);
}

#[test]
fn burn_zero_or_excess_rejected() {
    let mut e = funded(100, 10);
    let mut b = Burn { mint_supply: 50 };
    assert_eq!(e.burn(&mut b, 0), Err(EscrowError::InvalidArgument));
    assert_eq!(e.burn(&mut b, 11), Err(EscrowError::InvalidArgument));
    assert!(e.exists);
    assert_eq!(e.vault_amount, 10);
    assert_eq!(b.mint_supply, 50);
}

#[test]
fn reopening_after_close_starts_fresh() {
    let mut e = funded(100, 10);
    let mut p = Purchase { buy_from_amount: 100, seller_proceeds_amount: 0, buy_to_amount: 0 };
    assert_eq!(e.purchase(&mut p), Ok(()));
    assert!(!e.exists);
    // The same identity can be reopened at a different price afterwards.
    let mut t = Tender { sell_from_amount: 3 };
    assert_eq!(e.tender(&mut t, 254, 7, 3), Ok(()));
    assert_eq!(e.account.total_purchase_cost, 7);
    assert_eq!(e.vault_amount, 3);
}
