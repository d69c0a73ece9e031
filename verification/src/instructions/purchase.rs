use crate::cpi::{plan_view, Action, Asset, Party};
use crate::error::ErrorCode;
use crate::pricing::{protocol_fee, purchase_cost, purchase_payments, treasury_share};
use crate::pubkey::Pubkey;
use crate::state::{Launcher, Launchpad, PresaleState};
use vstd::prelude::*;

verus! {

/// What a buyer asks for.
#[derive(Clone, Copy, Debug, PartialEq, Eq)]
pub struct PurchaseArgs {
    /// Token units to buy.
    pub amount: u64,
}

/// What `purchase` reads of its accounts.
#[derive(Clone, Copy, Debug, PartialEq, Eq)]
pub struct Purchase {
    /// The buyer, who signs.
    pub signer: Pubkey,
    /// The launchpad whose tokens are bought.
    pub launchpad: Launchpad,
    /// Tokens held by the launchpad's presale token account.
    pub presale_token_balance: u64,
    /// The launcher.
    pub launcher: Launcher,
    /// The fee pool account that the buyer passed.
    pub protool_fee_pool: Pubkey,
}

/// The transfers of a purchase of `amount` units that passed every check:
/// the tokens to the buyer, then the buyer's payment to the treasury and
/// to the fee pool.
pub open spec fn purchase_plan(amount: u64) -> Seq<Action> {
    seq![
        Action::Transfer {
            asset: Asset::Token,
            from: Party::PresaleTokenAccount,
            to: Party::UserTokenAccount,
            amount,
        },
        Action::Transfer {
            asset: Asset::Lamports,
            from: Party::Signer,
            to: Party::PresaleTreasury,
            amount: treasury_share(purchase_cost(amount)) as u64,
        },
        Action::Transfer {
            asset: Asset::Lamports,
            from: Party::Signer,
            to: Party::ProtocolFeePool,
            amount: protocol_fee(purchase_cost(amount)) as u64,
        },
    ]
}

/// The outcome of a purchase: the first check that fails, in the order in
/// which they are made, or the plan.
pub open spec fn purchase_outcome(ctx: Purchase, args: PurchaseArgs) -> Result<Seq<Action>, ErrorCode> {
    if ctx.launchpad.owner != ctx.signer {
        Err(ErrorCode::InvalidLaunchpadOwner)
    } else if ctx.launcher.fee_pool != ctx.protool_fee_pool {
        Err(ErrorCode::InvalidFeePool)
    } else if ctx.launchpad.presale_state != PresaleState::InProgress {
        Err(ErrorCode::LaunchpadNotInProgress)
    } else if ctx.presale_token_balance < args.amount {
        Err(ErrorCode::NotEnoughBalance)
    } else {
        Ok(purchase_plan(args.amount))
    }
}

/// Buys `args.amount` tokens of the launchpad at the presale price.
pub fn purchase(ctx: &Purchase, args: PurchaseArgs) -> (res: Result<Vec<Action>, ErrorCode>)
    ensures
        plan_view(res) == purchase_outcome(*ctx, args),
{
    if !ctx.launchpad.owner.key_eq(&ctx.signer) {
        return Err(ErrorCode::InvalidLaunchpadOwner);
    }
    if !ctx.launcher.fee_pool.key_eq(&ctx.protool_fee_pool) {
        return Err(ErrorCode::InvalidFeePool);
    }
    ctx.launchpad.check_launchpad_started()?;
    if ctx.presale_token_balance < args.amount {
        return Err(ErrorCode::NotEnoughBalance);
    }
    let (to_treasury, to_fee_pool) = purchase_payments(args.amount);
    let mut plan: Vec<Action> = Vec::new();
    plan.push(
        Action::Transfer {
            asset: Asset::Token,
            from: Party::PresaleTokenAccount,
            to: Party::UserTokenAccount,
            amount: args.amount,
        },
    );
    plan.push(
        Action::Transfer {
            asset: Asset::Lamports,
            from: Party::Signer,
            to: Party::PresaleTreasury,
            amount: to_treasury,
        },
    );
    plan.push(
        Action::Transfer {
            asset: Asset::Lamports,
            from: Party::Signer,
            to: Party::ProtocolFeePool,
            amount: to_fee_pool,
        },
    );
    assert(plan@ =~= purchase_plan(args.amount));
    Ok(plan)
}

} // verus!
