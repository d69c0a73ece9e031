use crate::cpi::{plan_view, Action, Asset, Party};
use crate::error::ErrorCode;
use crate::pricing::{protocol_fee, sale_payouts, sale_proceeds, treasury_share};
use crate::pubkey::Pubkey;
use crate::state::{Launcher, Launchpad, PresaleState};
use vstd::prelude::*;

verus! {

/// What a seller asks for.
#[derive(Clone, Copy, Debug, PartialEq, Eq)]
pub struct SellArgs {
    /// Token units to sell back.
    pub amount: u64,
}

/// What `sell` reads of its accounts.
#[derive(Clone, Copy, Debug, PartialEq, Eq)]
pub struct Sell {
    /// The seller, who signs.
    pub signer: Pubkey,
    /// The launcher.
    pub launcher: Launcher,
    /// The fee pool account that the seller passed.
    pub protool_fee_pool: Pubkey,
    /// The launchpad whose tokens are sold back.
    pub launchpad: Launchpad,
}

/// The first check of a sale that fails, in the order in which they are
/// made, if any.
pub open spec fn sell_check_outcome(ctx: Sell) -> Result<(), ErrorCode> {
    if ctx.launcher.fee_pool != ctx.protool_fee_pool {
        Err(ErrorCode::InvalidFeePool)
    } else if ctx.launchpad.owner != ctx.signer {
        Err(ErrorCode::InvalidLaunchpadOwner)
    } else if ctx.launchpad.presale_state != PresaleState::InProgress {
        Err(ErrorCode::LaunchpadNotInProgress)
    } else {
        Ok(())
    }
}

/// The transfers of a sale of `amount` units that passed every check: the
/// tokens back to the presale account, then the treasury's payment to the
/// seller and to the fee pool.
pub open spec fn sell_plan(amount: u64) -> Seq<Action> {
    seq![
        Action::Transfer {
            asset: Asset::Token,
            from: Party::UserTokenAccount,
            to: Party::PresaleTokenAccount,
            amount,
        },
        Action::Transfer {
            asset: Asset::Lamports,
            from: Party::PresaleTreasury,
            to: Party::Signer,
            amount: treasury_share(sale_proceeds(amount)) as u64,
        },
        Action::Transfer {
            asset: Asset::Lamports,
            from: Party::PresaleTreasury,
            to: Party::ProtocolFeePool,
            amount: protocol_fee(sale_proceeds(amount)) as u64,
        },
    ]
}

/// The outcome of a sale: the first check that fails, or the plan.
pub open spec fn sell_outcome(ctx: Sell, args: SellArgs) -> Result<Seq<Action>, ErrorCode> {
    match sell_check_outcome(ctx) {
        Err(e) => Err(e),
        Ok(_) => Ok(sell_plan(args.amount)),
    }
}

impl Sell {
    /// Makes the checks of a sale, in order.
    pub fn check(&self) -> (res: Result<(), ErrorCode>)
        ensures
            res == sell_check_outcome(*self),
    {
        if !self.launcher.fee_pool.key_eq(&self.protool_fee_pool) {
            return Err(ErrorCode::InvalidFeePool);
        }
        if !self.launchpad.owner.key_eq(&self.signer) {
            return Err(ErrorCode::InvalidLaunchpadOwner);
        }
        self.launchpad.check_launchpad_started()
    }
}

/// Sells `args.amount` tokens back to the launchpad at the presale price.
pub fn sell(ctx: &Sell, args: SellArgs) -> (res: Result<Vec<Action>, ErrorCode>)
    ensures
        plan_view(res) == sell_outcome(*ctx, args),
{
    ctx.check()?;
    let (to_seller, to_fee_pool) = sale_payouts(args.amount);
    let mut plan: Vec<Action> = Vec::new();
    plan.push(
        Action::Transfer {
            asset: Asset::Token,
            from: Party::UserTokenAccount,
            to: Party::PresaleTokenAccount,
            amount: args.amount,
        },
    );
    plan.push(
        Action::Transfer {
            asset: Asset::Lamports,
            from: Party::PresaleTreasury,
            to: Party::Signer,
            amount: to_seller,
        },
    );
    plan.push(
        Action::Transfer {
            asset: Asset::Lamports,
            from: Party::PresaleTreasury,
            to: Party::ProtocolFeePool,
            amount: to_fee_pool,
        },
    );
    assert(plan@ =~= sell_plan(args.amount));
    Ok(plan)
}

} // verus!
