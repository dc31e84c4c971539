use vstd::prelude::*;
use crate::EscrowError;
use crate::ratio::{ratio_ok, check_tender_args};
use crate::cost::{cost_ok, exact_cost, get_purchase_cost, lemma_cost_le_total, lemma_full_fill_exact};

verus! {

/// The persisted escrow metadata: 9 bytes of logical payload.
#[derive(Clone, Copy, Debug, PartialEq, Eq, Structural)]
pub struct EscrowAccount {
    /// The sum, in the payment asset's smallest unit, required to purchase
    /// all currently vaulted quantity.
    pub total_purchase_cost: u64,
    /// The nonce that, together with the escrow's derivation tuple,
    /// reproduces the vault authority. Fixed at first creation.
    pub bump_seed: u8,
}

/// One escrow: the metadata record plus the vault it controls. The vault's
/// balance is the "current quantity" term of all pricing math; there is no
/// separate quantity field in the record. `exists` is false exactly when the
/// record and vault have been closed (or were never created); the ledger
/// reclaims their storage the instant the vault balance reaches zero.
#[derive(Clone, Copy, Debug, PartialEq, Eq, Structural)]
pub struct Escrow {
    /// Whether the record and its vault currently exist on the ledger.
    pub exists: bool,
    /// The metadata record (meaningful only while `exists`).
    pub account: EscrowAccount,
    /// The vault's balance of the asset for sale (meaningful only while
    /// `exists`).
    pub vault_amount: u64,
}

/// The depositor-funded path's external account: the depositor's balance of
/// the asset for sale.
#[derive(Clone, Copy, Debug, PartialEq, Eq, Structural)]
pub struct Tender {
    /// Balance of the account the deposit is transferred out of.
    pub sell_from_amount: u64,
}

/// The mint-funded path's external state: the total supply of the asset for
/// sale, which minting into the vault increases.
#[derive(Clone, Copy, Debug, PartialEq, Eq, Structural)]
pub struct TenderFromMint {
    /// Total supply of the asset's mint.
    pub mint_supply: u64,
}

/// The settlement path's external accounts.
#[derive(Clone, Copy, Debug, PartialEq, Eq, Structural)]
pub struct Purchase {
    /// Balance of the buyer's payment-asset account.
    pub buy_from_amount: u64,
    /// Balance of the seller's proceeds account.
    pub seller_proceeds_amount: u64,
    /// Balance of the receiver's asset account.
    pub buy_to_amount: u64,
}

/// The reclaim path's external account: where the unsold inventory returns.
#[derive(Clone, Copy, Debug, PartialEq, Eq, Structural)]
pub struct Cancel {
    /// Balance of the depositor's reclaim account.
    pub sell_from_amount: u64,
}

/// The destructive path's external state: burning reduces the asset's total
/// supply; no account receives the destroyed quantity.
#[derive(Clone, Copy, Debug, PartialEq, Eq, Structural)]
pub struct Burn {
    /// Total supply of the asset's mint.
    pub mint_supply: u64,
}

impl Escrow {
    /// The outstanding total cost: zero for a closed or never-created escrow.
    pub open spec fn cur_cost(self) -> u64 {
        if self.exists { self.account.total_purchase_cost } else { 0u64 }
    }

    /// The vaulted quantity: zero for a closed or never-created escrow.
    pub open spec fn cur_qty(self) -> u64 {
        if self.exists { self.vault_amount } else { 0u64 }
    }

    /// Every observable open escrow has a nonzero outstanding cost and a
    /// nonzero vaulted quantity: deposits establish both, and the record is
    /// closed the instant the vault empties. In particular
    /// `total_purchase_cost == 0` iff the vault balance is zero.
    pub open spec fn wf(self) -> bool {
        self.exists ==> self.account.total_purchase_cost > 0 && self.vault_amount > 0
    }
}

/// The deposit transition shared by both funding paths: what the record and
/// vault become when an exactly proportional (cost, quantity) pair is added.
pub open spec fn deposited(pre: Escrow, bump_seed: u8, add_cost: u64, add_qty: u64) -> Escrow {
    Escrow {
        exists: true,
        account: EscrowAccount {
            total_purchase_cost: (pre.cur_cost() + add_cost) as u64,
            bump_seed: bump_seed,
        },
        vault_amount: (pre.cur_qty() + add_qty) as u64,
    }
}

/// The depositor-funded deposit: ratio check, then transfer of `add_qty` from
/// the depositor's account into the vault, then the record update.
pub open spec fn tender_spec(pre: Escrow, ctx: Tender, bump_seed: u8, add_cost: u64, add_qty: u64) -> Result<(Escrow, Tender), EscrowError> {
    if !ratio_ok(pre.cur_cost(), add_cost, pre.cur_qty(), add_qty) {
        Err(EscrowError::InvalidArgument)
    } else if ctx.sell_from_amount < add_qty {
        Err(EscrowError::InsufficientFunds)
    } else {
        Ok((
            deposited(pre, bump_seed, add_cost, add_qty),
            Tender { sell_from_amount: (ctx.sell_from_amount - add_qty) as u64 },
        ))
    }
}

/// The mint-funded deposit: same ratio check, but `add_qty` is minted into
/// the vault, raising the asset's total supply instead of debiting anyone.
pub open spec fn tender_from_mint_spec(pre: Escrow, ctx: TenderFromMint, bump_seed: u8, add_cost: u64, add_qty: u64) -> Result<(Escrow, TenderFromMint), EscrowError> {
    if !ratio_ok(pre.cur_cost(), add_cost, pre.cur_qty(), add_qty) {
        Err(EscrowError::InvalidArgument)
    } else {
        Ok((
            deposited(pre, bump_seed, add_cost, add_qty),
            TenderFromMint { mint_supply: (ctx.mint_supply + add_qty) as u64 },
        ))
    }
}

/// The settlement transition: the buyer pays the exact proportional cost, the
/// vault releases `qty` to the receiver, and record and vault close exactly
/// when the vault empties.
pub open spec fn purchase_spec(pre: Escrow, ctx: Purchase, qty: u64) -> Result<(Escrow, Purchase), EscrowError> {
    if !cost_ok(qty, pre.vault_amount, pre.account.total_purchase_cost) {
        Err(EscrowError::InvalidArgument)
    } else if ctx.buy_from_amount < exact_cost(qty, pre.vault_amount, pre.account.total_purchase_cost) {
        Err(EscrowError::InsufficientFunds)
    } else {
        let cost = exact_cost(qty, pre.vault_amount, pre.account.total_purchase_cost);
        Ok((
            Escrow {
                exists: qty != pre.vault_amount,
                account: EscrowAccount {
                    total_purchase_cost: (pre.account.total_purchase_cost - cost) as u64,
                    bump_seed: pre.account.bump_seed,
                },
                vault_amount: (pre.vault_amount - qty) as u64,
            },
            Purchase {
                buy_from_amount: (ctx.buy_from_amount - cost) as u64,
                seller_proceeds_amount: (ctx.seller_proceeds_amount + cost) as u64,
                buy_to_amount: (ctx.buy_to_amount + qty) as u64,
            },
        ))
    }
}

/// The reclaim transition: the whole vault balance returns to the depositor
/// and both record and vault close. It cannot fail.
pub open spec fn cancel_spec(pre: Escrow, ctx: Cancel) -> (Escrow, Cancel) {
    (
        Escrow { exists: false, account: pre.account, vault_amount: 0u64 },
        Cancel { sell_from_amount: (ctx.sell_from_amount + pre.vault_amount) as u64 },
    )
}

/// The destructive transition: `quantity` of the vaulted asset is destroyed,
/// reducing total supply; the outstanding cost is deliberately not adjusted,
/// so a partial burn raises the effective unit price of what remains.
pub open spec fn burn_spec(pre: Escrow, ctx: Burn, quantity: u64) -> Result<(Escrow, Burn), EscrowError> {
    if quantity == 0 || quantity > pre.vault_amount {
        Err(EscrowError::InvalidArgument)
    } else {
        Ok((
            Escrow {
                exists: quantity != pre.vault_amount,
                account: pre.account,
                vault_amount: (pre.vault_amount - quantity) as u64,
            },
            Burn { mint_supply: (ctx.mint_supply - quantity) as u64 },
        ))
    }
}

impl Escrow {
    /// Deposit `asset_quantity_for_sale` units priced at `total_purchase_cost`
    /// in aggregate, funded by a transfer out of the depositor's account.
    /// Creates the record and vault if absent; otherwise layers onto them,
    /// which the ratio check permits only at exactly the existing unit price.
    /// Fails fast (before any custody change) with `InvalidArgument` on a
    /// zero or disproportionate pair, and with `InsufficientFunds` when the
    /// depositor's account cannot fund the transfer.
    pub fn tender(&mut self, ctx: &mut Tender, bump_seed: u8, total_purchase_cost: u64, asset_quantity_for_sale: u64) -> (r: Result<(), EscrowError>)
        requires
            old(self).wf(),
            old(self).exists ==> bump_seed == old(self).account.bump_seed,
            old(self).cur_cost() + total_purchase_cost <= u64::MAX,
            old(self).cur_qty() + asset_quantity_for_sale <= u64::MAX,
        ensures
            final(self).wf(),
            r matches Ok(u) ==> tender_spec(*old(self), *old(ctx), bump_seed, total_purchase_cost, asset_quantity_for_sale) == Ok::<(Escrow, Tender), EscrowError>((*final(self), *final(ctx))),
            r matches Err(e) ==> tender_spec(*old(self), *old(ctx), bump_seed, total_purchase_cost, asset_quantity_for_sale) == Err::<(Escrow, Tender), EscrowError>(e)
                && *final(self) == *old(self) && *final(ctx) == *old(ctx),
    {
        let current_cost: u64 = if self.exists { self.account.total_purchase_cost } else { 0 };
        let current_qty: u64 = if self.exists { self.vault_amount } else { 0 };

        match check_tender_args(current_cost, total_purchase_cost, current_qty, asset_quantity_for_sale) {
            Ok(()) => {}
            Err(e) => { return Err(e); }
        }

        // Move the deposit from the depositor's account into the vault.
        if ctx.sell_from_amount < asset_quantity_for_sale {
            return Err(EscrowError::InsufficientFunds);
        }
        ctx.sell_from_amount = ctx.sell_from_amount - asset_quantity_for_sale;

        self.exists = true;
        self.vault_amount = current_qty + asset_quantity_for_sale;
        self.account.total_purchase_cost = current_cost + total_purchase_cost;
        self.account.bump_seed = bump_seed;
        Ok(())
    }

    /// Deposit like `tender`, but funded by minting `asset_quantity_for_sale`
    /// directly into the vault under the mint authority, raising the asset's
    /// total supply. Fails only on the ratio check, with `InvalidArgument`.
    pub fn tender_from_mint(&mut self, ctx: &mut TenderFromMint, bump_seed: u8, total_purchase_cost: u64, asset_quantity_for_sale: u64) -> (r: Result<(), EscrowError>)
        requires
            old(self).wf(),
            old(self).exists ==> bump_seed == old(self).account.bump_seed,
            old(self).cur_cost() + total_purchase_cost <= u64::MAX,
            old(self).cur_qty() + asset_quantity_for_sale <= u64::MAX,
            old(ctx).mint_supply + asset_quantity_for_sale <= u64::MAX,
        ensures
            final(self).wf(),
            r matches Ok(u) ==> tender_from_mint_spec(*old(self), *old(ctx), bump_seed, total_purchase_cost, asset_quantity_for_sale) == Ok::<(Escrow, TenderFromMint), EscrowError>((*final(self), *final(ctx))),
            r matches Err(e) ==> tender_from_mint_spec(*old(self), *old(ctx), bump_seed, total_purchase_cost, asset_quantity_for_sale) == Err::<(Escrow, TenderFromMint), EscrowError>(e)
                && *final(self) == *old(self) && *final(ctx) == *old(ctx),
    {
        let current_cost: u64 = if self.exists { self.account.total_purchase_cost } else { 0 };
        let current_qty: u64 = if self.exists { self.vault_amount } else { 0 };

        match check_tender_args(current_cost, total_purchase_cost, current_qty, asset_quantity_for_sale) {
            Ok(()) => {}
            Err(e) => { return Err(e); }
        }

        // Mint the deposit straight into the vault.
        ctx.mint_supply = ctx.mint_supply + asset_quantity_for_sale;

        self.exists = true;
        self.vault_amount = current_qty + asset_quantity_for_sale;
        self.account.total_purchase_cost = current_cost + total_purchase_cost;
        self.account.bump_seed = bump_seed;
        Ok(())
    }

    /// Full fill: purchase the vault's entire current balance.
    /// Because a full fill is always exactly divisible and costs exactly the
    /// outstanding total, it succeeds whenever the buyer can pay that total,
    /// and it always closes the record and vault.
    pub fn purchase(&mut self, ctx: &mut Purchase) -> (r: Result<(), EscrowError>)
        requires
            old(self).wf(),
            old(self).exists,
            old(ctx).seller_proceeds_amount + old(self).account.total_purchase_cost <= u64::MAX,
            old(ctx).buy_to_amount + old(self).vault_amount <= u64::MAX,
        ensures
            final(self).wf(),
            r matches Ok(u) ==> purchase_spec(*old(self), *old(ctx), old(self).vault_amount) == Ok::<(Escrow, Purchase), EscrowError>((*final(self), *final(ctx))),
            r matches Err(e) ==> purchase_spec(*old(self), *old(ctx), old(self).vault_amount) == Err::<(Escrow, Purchase), EscrowError>(e)
                && *final(self) == *old(self) && *final(ctx) == *old(ctx),
            r is Ok <==> old(ctx).buy_from_amount >= old(self).account.total_purchase_cost,
            r is Ok ==> !final(self).exists
                && final(ctx).seller_proceeds_amount == old(ctx).seller_proceeds_amount + old(self).account.total_purchase_cost
                && final(ctx).buy_to_amount == old(ctx).buy_to_amount + old(self).vault_amount
                && final(ctx).buy_from_amount == old(ctx).buy_from_amount - old(self).account.total_purchase_cost,
    {
        proof {
            lemma_full_fill_exact(self.vault_amount, self.account.total_purchase_cost);
        }
        let quantity_remaining: u64 = self.vault_amount;
        self.purchase_partial(ctx, quantity_remaining)
    }

    /// Partial (or full) fill of `quantity_to_transfer` units. The buyer pays
    /// the exact proportional cost into the seller's proceeds account, the
    /// outstanding cost is decremented, the vault releases the quantity to
    /// the receiver, and the record and vault close exactly when the vault
    /// empties. Fails with `InvalidArgument` when the quantity is zero,
    /// exceeds the vault balance, or is not exactly divisible at the current
    /// ratio, and with `InsufficientFunds` when the buyer cannot pay; a
    /// failed call changes nothing.
    pub fn purchase_partial(&mut self, ctx: &mut Purchase, quantity_to_transfer: u64) -> (r: Result<(), EscrowError>)
        requires
            old(self).wf(),
            old(self).exists,
            old(ctx).seller_proceeds_amount + old(self).account.total_purchase_cost <= u64::MAX,
            quantity_to_transfer <= old(self).vault_amount ==> old(ctx).buy_to_amount + quantity_to_transfer <= u64::MAX,
        ensures
            final(self).wf(),
            r matches Ok(u) ==> purchase_spec(*old(self), *old(ctx), quantity_to_transfer) == Ok::<(Escrow, Purchase), EscrowError>((*final(self), *final(ctx))),
            r matches Err(e) ==> purchase_spec(*old(self), *old(ctx), quantity_to_transfer) == Err::<(Escrow, Purchase), EscrowError>(e)
                && *final(self) == *old(self) && *final(ctx) == *old(ctx),
    {
        let purchase_cost: u64 = match get_purchase_cost(
            quantity_to_transfer,
            self.vault_amount,
            self.account.total_purchase_cost,
        ) {
            Ok(c) => c,
            Err(e) => { return Err(e); }
        };

        proof {
            lemma_cost_le_total(quantity_to_transfer, old(self).vault_amount, old(self).account.total_purchase_cost);
        }

        // First move the buyer's payment and reduce the outstanding cost.
        if ctx.buy_from_amount < purchase_cost {
            return Err(EscrowError::InsufficientFunds);
        }
        ctx.buy_from_amount = ctx.buy_from_amount - purchase_cost;
        ctx.seller_proceeds_amount = ctx.seller_proceeds_amount + purchase_cost;
        // The calculator guarantees the cost never exceeds the outstanding
        // total, so this subtraction cannot underflow.
        self.account.total_purchase_cost = self.account.total_purchase_cost - purchase_cost;

        // Second move the asset from the vault to the receiver.
        self.vault_amount = self.vault_amount - quantity_to_transfer;
        ctx.buy_to_amount = ctx.buy_to_amount + quantity_to_transfer;

        // Third close the record and vault once the vault is empty.
        if self.vault_amount == 0 {
            self.exists = false;
        }

        proof {
            if quantity_to_transfer < old(self).vault_amount {
                lemma_partial_fill_leaves_positive_cost(*old(self), quantity_to_transfer);
            }
        }
        Ok(())
    }

    /// Reclaim: the vault's whole balance returns to the depositor's account
    /// and both record and vault close. Usable at any time while the escrow
    /// exists; it cannot fail.
    pub fn cancel(&mut self, ctx: &mut Cancel) -> (r: Result<(), EscrowError>)
        requires
            old(self).wf(),
            old(self).exists,
            old(ctx).sell_from_amount + old(self).vault_amount <= u64::MAX,
        ensures
            final(self).wf(),
            r is Ok,
            cancel_spec(*old(self), *old(ctx)) == (*final(self), *final(ctx)),
            !final(self).exists,
            final(self).cur_cost() == 0,
            final(ctx).sell_from_amount == old(ctx).sell_from_amount + old(self).vault_amount,
    {
        // Return the vaulted funds to the depositor, then close the vault
        // and the record.
        ctx.sell_from_amount = ctx.sell_from_amount + self.vault_amount;
        self.vault_amount = 0;
        self.exists = false;
        Ok(())
    }

    /// Destroy `quantity` units of the vaulted asset, reducing the asset's
    /// total supply; nothing is transferred to any account, and the
    /// outstanding cost is deliberately left unchanged. Closes the record
    /// and vault when the burn empties the vault. Fails with
    /// `InvalidArgument` when `quantity` is zero or exceeds the vault
    /// balance; a failed call changes nothing.
    pub fn burn(&mut self, ctx: &mut Burn, quantity: u64) -> (r: Result<(), EscrowError>)
        requires
            old(self).wf(),
            old(self).exists,
            old(self).vault_amount <= old(ctx).mint_supply,
        ensures
            final(self).wf(),
            r matches Ok(u) ==> burn_spec(*old(self), *old(ctx), quantity) == Ok::<(Escrow, Burn), EscrowError>((*final(self), *final(ctx))),
            r matches Err(e) ==> burn_spec(*old(self), *old(ctx), quantity) == Err::<(Escrow, Burn), EscrowError>(e)
                && *final(self) == *old(self) && *final(ctx) == *old(ctx),
            r is Ok <==> 0 < quantity <= old(self).vault_amount,
            r is Ok ==> final(self).cur_cost() == (if quantity == old(self).vault_amount { 0int } else { old(self).account.total_purchase_cost as int }),
    {
        if quantity == 0 || quantity > self.vault_amount {
            return Err(EscrowError::InvalidArgument);
        }

        // Destroy the tokens: the vault and the total supply shrink together.
        ctx.mint_supply = ctx.mint_supply - quantity;
        self.vault_amount = self.vault_amount - quantity;

        if self.vault_amount == 0 {
            self.exists = false;
        }
        Ok(())
    }
}

/// After a successful fill that does not empty the vault, the outstanding
/// cost stays positive: the exact-divisibility requirement makes the cost of
/// a strict part strictly smaller than the whole.
proof fn lemma_partial_fill_leaves_positive_cost(pre: Escrow, qty: u64)
    requires
        pre.wf(),
        pre.exists,
        cost_ok(qty, pre.vault_amount, pre.account.total_purchase_cost),
        qty < pre.vault_amount,
    ensures
        exact_cost(qty, pre.vault_amount, pre.account.total_purchase_cost) < pre.account.total_purchase_cost,
{
    let q = qty as int;
    let total_q = pre.vault_amount as int;
    let total_c = pre.account.total_purchase_cost as int;
    let c = exact_cost(qty, pre.vault_amount, pre.account.total_purchase_cost);
    assert(c < total_c) by (nonlinear_arith)
        requires
            total_q * c == q * total_c,
            0 < q < total_q,
            0 < total_c,
    ;
}

} // verus!
