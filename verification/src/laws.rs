use vstd::prelude::*;
use crate::EscrowError;
use crate::ratio::ratio_ok;
use crate::cost::{exact_cost, lemma_cost_le_total, lemma_full_fill_exact};
use crate::state::{Escrow, Tender, TenderFromMint, Purchase, Cancel, Burn, tender_spec, tender_from_mint_spec, purchase_spec, cancel_spec, burn_spec};

verus! {

/// Depositing a valid (cost, qty) pair into a fresh escrow and then buying
/// the full fill transfers exactly `cost` to the proceeds account and exactly
/// `qty` to the receiver, and leaves no record or vault behind.
pub proof fn lemma_tender_then_full_purchase(e0: Escrow, t0: Tender, p0: Purchase, bump: u8, cost: u64, qty: u64)
    requires
        !e0.exists,
        cost > 0,
        qty > 0,
        t0.sell_from_amount >= qty,
        p0.buy_from_amount >= cost,
        p0.seller_proceeds_amount + cost <= u64::MAX,
        p0.buy_to_amount + qty <= u64::MAX,
    ensures
        ({
            let r1 = tender_spec(e0, t0, bump, cost, qty);
            &&& r1 is Ok
            &&& {
                let e1 = r1->Ok_0.0;
                let r2 = purchase_spec(e1, p0, e1.vault_amount);
                &&& r2 is Ok
                &&& !r2->Ok_0.0.exists
                &&& r2->Ok_0.0.cur_cost() == 0
                &&& r2->Ok_0.1.seller_proceeds_amount == p0.seller_proceeds_amount + cost
                &&& r2->Ok_0.1.buy_to_amount == p0.buy_to_amount + qty
                &&& r1->Ok_0.1.sell_from_amount == t0.sell_from_amount - qty
            }
        }),
{
    assert(ratio_ok(e0.cur_cost(), cost, e0.cur_qty(), qty));
    let e1 = tender_spec(e0, t0, bump, cost, qty)->Ok_0.0;
    lemma_full_fill_exact(e1.vault_amount, e1.account.total_purchase_cost);
}

/// Two deposits whose (cost, qty) pairs are exactly proportional both
/// succeed, and the record accumulates the sums: total cost `c1 + c2`, vault
/// balance `q1 + q2`.
pub proof fn lemma_layered_proportional_deposits(e0: Escrow, t0: Tender, bump: u8, c1: u64, q1: u64, c2: u64, q2: u64)
    requires
        !e0.exists,
        c1 > 0,
        q1 > 0,
        c2 > 0,
        q2 > 0,
        q1 * c2 == c1 * q2,
        t0.sell_from_amount >= q1 + q2,
        c1 + c2 <= u64::MAX,
        q1 + q2 <= u64::MAX,
    ensures
        ({
            let r1 = tender_spec(e0, t0, bump, c1, q1);
            &&& r1 is Ok
            &&& {
                let r2 = tender_spec(r1->Ok_0.0, r1->Ok_0.1, bump, c2, q2);
                &&& r2 is Ok
                &&& r2->Ok_0.0.account.total_purchase_cost == c1 + c2
                &&& r2->Ok_0.0.vault_amount == q1 + q2
            }
        }),
{
    assert(ratio_ok(e0.cur_cost(), c1, e0.cur_qty(), q1));
}

/// A second deposit whose pair is zero in either part, or not exactly
/// proportional to the record's current pair, is rejected with
/// `InvalidArgument` (and, per the operations' contracts, a rejected deposit
/// changes nothing).
pub proof fn lemma_disproportionate_deposit_rejected(e: Escrow, t: Tender, bump: u8, add_cost: u64, add_qty: u64)
    requires
        add_cost == 0 || add_qty == 0 || e.cur_qty() * add_cost != e.cur_cost() * add_qty,
    ensures
        tender_spec(e, t, bump, add_cost, add_qty) == Err::<(Escrow, Tender), EscrowError>(EscrowError::InvalidArgument),
{
}

/// The two funding paths agree on the escrow itself: whenever a
/// depositor-funded deposit succeeds, the mint-funded deposit of the same
/// pair succeeds too and leaves the record and vault in the same state; the
/// paths differ only in where the inventory comes from (a holder's account
/// debited, or total supply raised).
pub proof fn lemma_funding_paths_agree(e: Escrow, t: Tender, m: TenderFromMint, bump: u8, add_cost: u64, add_qty: u64)
    requires
        tender_spec(e, t, bump, add_cost, add_qty) is Ok,
        m.mint_supply + add_qty <= u64::MAX,
    ensures
        tender_from_mint_spec(e, m, bump, add_cost, add_qty) is Ok,
        tender_from_mint_spec(e, m, bump, add_cost, add_qty)->Ok_0.0 == tender_spec(e, t, bump, add_cost, add_qty)->Ok_0.0,
        tender_from_mint_spec(e, m, bump, add_cost, add_qty)->Ok_0.1.mint_supply == m.mint_supply + add_qty,
{
}

/// The outcome of a sequence of settlement fills, each applied to the state
/// the previous one left: the final state, or nothing if any fill fails.
pub open spec fn run_fills(e: Escrow, ctx: Purchase, qtys: Seq<u64>) -> Option<(Escrow, Purchase)>
    decreases qtys.len(),
{
    if qtys.len() == 0 {
        Some((e, ctx))
    } else {
        match purchase_spec(e, ctx, qtys[0]) {
            Ok(p) => run_fills(p.0, p.1, qtys.drop_first()),
            Err(_) => None,
        }
    }
}

/// Proportionality is transitive across intermediate (cost, qty) states.
proof fn lemma_ratio_transitive(c0: int, q0: int, c1: int, q1: int, c2: int, q2: int)
    requires
        c1 * q0 == c0 * q1,
        c2 * q1 == c1 * q2,
        q1 > 0,
    ensures
        c2 * q0 == c0 * q2,
{
    assert(c2 * q0 == c0 * q2) by (nonlinear_arith)
        requires
            c1 * q0 == c0 * q1,
            c2 * q1 == c1 * q2,
            q1 > 0,
    ;
}

/// Across any sequence of successful fills: payment is conserved (what the
/// proceeds account gains is exactly what the outstanding cost loses), the
/// price ratio is preserved exactly, and the record exists exactly while the
/// vault is nonempty.
pub proof fn lemma_fill_sequence_conserves(e: Escrow, ctx: Purchase, qtys: Seq<u64>, e2: Escrow, ctx2: Purchase)
    requires
        ctx.seller_proceeds_amount + e.account.total_purchase_cost <= u64::MAX,
        run_fills(e, ctx, qtys) == Some::<(Escrow, Purchase)>((e2, ctx2)),
    ensures
        ctx2.seller_proceeds_amount + e2.account.total_purchase_cost == ctx.seller_proceeds_amount + e.account.total_purchase_cost,
        e2.account.total_purchase_cost * e.vault_amount == e.account.total_purchase_cost * e2.vault_amount,
        qtys.len() > 0 ==> (e2.exists <==> e2.vault_amount != 0),
    decreases qtys.len(),
{
    if qtys.len() == 0 {
    } else {
        let r = purchase_spec(e, ctx, qtys[0]);
        assert(r is Ok);
        let m_e = r->Ok_0.0;
        let m_ctx = r->Ok_0.1;
        let q = qtys[0];
        let c_all = e.account.total_purchase_cost;
        let q_all = e.vault_amount;
        let c = exact_cost(q, q_all, c_all);
        lemma_cost_le_total(q, q_all, c_all);
        assert((c_all - c) * q_all == c_all * (q_all - q)) by (nonlinear_arith)
            requires
                q_all * c == q * c_all,
        ;
        lemma_fill_sequence_conserves(m_e, m_ctx, qtys.drop_first(), e2, ctx2);
        if qtys.drop_first().len() == 0 {
            assert(e2 == m_e);
        } else {
            if m_e.vault_amount == 0 {
                assert(purchase_spec(m_e, m_ctx, qtys.drop_first()[0]) is Err);
                assert(false);
            }
            lemma_ratio_transitive(
                c_all as int,
                q_all as int,
                m_e.account.total_purchase_cost as int,
                m_e.vault_amount as int,
                e2.account.total_purchase_cost as int,
                e2.vault_amount as int,
            );
        }
    }
}

/// Repeated partial fills that empty the vault pay, in total, exactly the
/// original outstanding cost — the same proceeds as one full fill, whatever
/// the quantities and their order — and the final fill closes record and
/// vault.
pub proof fn lemma_fills_to_empty_pay_exactly_total(e: Escrow, ctx: Purchase, qtys: Seq<u64>, e2: Escrow, ctx2: Purchase)
    requires
        e.wf(),
        e.exists,
        ctx.seller_proceeds_amount + e.account.total_purchase_cost <= u64::MAX,
        run_fills(e, ctx, qtys) == Some::<(Escrow, Purchase)>((e2, ctx2)),
        e2.vault_amount == 0,
    ensures
        ctx2.seller_proceeds_amount == ctx.seller_proceeds_amount + e.account.total_purchase_cost,
        !e2.exists,
{
    lemma_fill_sequence_conserves(e, ctx, qtys, e2, ctx2);
    assert(e2.account.total_purchase_cost * e.vault_amount == 0);
    assert(e2.account.total_purchase_cost == 0) by (nonlinear_arith)
        requires
            e2.account.total_purchase_cost * e.vault_amount == 0,
            e.vault_amount > 0,
            e2.account.total_purchase_cost >= 0,
    ;
}

/// Depositing (cost, qty) into a fresh escrow and immediately cancelling
/// returns exactly `qty` to the depositor and deletes the record, leaving an
/// outstanding cost of zero.
pub proof fn lemma_tender_then_cancel(e0: Escrow, t0: Tender, c0: Cancel, bump: u8, cost: u64, qty: u64)
    requires
        !e0.exists,
        cost > 0,
        qty > 0,
        t0.sell_from_amount >= qty,
        c0.sell_from_amount + qty <= u64::MAX,
    ensures
        ({
            let r1 = tender_spec(e0, t0, bump, cost, qty);
            &&& r1 is Ok
            &&& {
                let after = cancel_spec(r1->Ok_0.0, c0);
                &&& !after.0.exists
                &&& after.0.cur_cost() == 0
                &&& after.1.sell_from_amount == c0.sell_from_amount + qty
            }
        }),
{
    assert(ratio_ok(e0.cur_cost(), cost, e0.cur_qty(), qty));
}

/// Burning the vault's full balance closes record and vault; the destroyed
/// quantity leaves total supply and reaches no account.
pub proof fn lemma_burn_all_closes(e: Escrow, b: Burn)
    requires
        e.wf(),
        e.exists,
        e.vault_amount <= b.mint_supply,
    ensures
        ({
            let r = burn_spec(e, b, e.vault_amount);
            &&& r is Ok
            &&& !r->Ok_0.0.exists
            &&& r->Ok_0.0.cur_cost() == 0
            &&& r->Ok_0.1.mint_supply == b.mint_supply - e.vault_amount
        }),
{
}

} // verus!
