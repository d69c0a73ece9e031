use crate::error::ErrorCode;
use vstd::prelude::*;

verus! {

/// The accounts between which an instruction moves tokens or lamports.
#[derive(Clone, Copy, Debug, PartialEq, Eq, Structural)]
pub enum Party {
    /// The wallet that signs the instruction.
    Signer,
    /// The launchpad's account that collects the SOL of its presale.
    PresaleTreasury,
    /// The protocol's fee pool.
    ProtocolFeePool,
    /// The launchpad's token account that holds the tokens on sale.
    PresaleTokenAccount,
    /// The launchpad's token account that holds the tokens kept for the pool.
    ReserveTokenAccount,
    /// The owner's token account from which the presale is funded.
    SourceTokenAccount,
    /// The signer's token account for the launchpad's mint.
    UserTokenAccount,
    /// The signer's token account for the pool's coin side.
    UserTokenCoin,
    /// The signer's wrapped-SOL account for the pool's price side.
    UserTokenPc,
}

/// What a transfer moves.
#[derive(Clone, Copy, Debug, PartialEq, Eq, Structural)]
pub enum Asset {
    /// Base units of a token, moved by the token program.
    Token,
    /// Lamports, moved by the system program.
    Lamports,
}

/// One call into another program that an instruction makes.
#[derive(Clone, Copy, Debug, PartialEq, Eq, Structural)]
pub enum Action {
    /// Moves `amount` of `asset` from `from` to `to`.
    Transfer { asset: Asset, from: Party, to: Party, amount: u64 },
    /// Brings a wrapped-SOL account's token amount in line with its lamports.
    SyncNative { account: Party },
    /// Creates the AMM pool with the given initial liquidity.
    InitializeAmm { nonce: u8, open_time: u64, init_pc_amount: u64, init_coin_amount: u64 },
}

/// How much of `asset` the action takes out of `p`.
pub open spec fn action_outflow(a: Action, asset: Asset, p: Party) -> int {
    match a {
        Action::Transfer { asset: x, from, to: _, amount } => if x == asset && from == p {
            amount as int
        } else {
            0
        },
        _ => 0,
    }
}

/// How much of `asset` the action puts into `p`.
pub open spec fn action_inflow(a: Action, asset: Asset, p: Party) -> int {
    match a {
        Action::Transfer { asset: x, from: _, to, amount } => if x == asset && to == p {
            amount as int
        } else {
            0
        },
        _ => 0,
    }
}

/// How much of `asset` the plan takes out of `p`, over all its actions.
pub open spec fn outflow(plan: Seq<Action>, asset: Asset, p: Party) -> int
    decreases plan.len(),
{
    if plan.len() == 0 {
        0
    } else {
        outflow(plan.drop_last(), asset, p) + action_outflow(plan.last(), asset, p)
    }
}

/// How much of `asset` the plan puts into `p`, over all its actions.
pub open spec fn inflow(plan: Seq<Action>, asset: Asset, p: Party) -> int
    decreases plan.len(),
{
    if plan.len() == 0 {
        0
    } else {
        inflow(plan.drop_last(), asset, p) + action_inflow(plan.last(), asset, p)
    }
}

/// The result of an instruction with its plan taken by value.
pub open spec fn plan_view(r: Result<Vec<Action>, ErrorCode>) -> Result<Seq<Action>, ErrorCode> {
    match r {
        Ok(v) => Ok(v@),
        Err(e) => Err(e),
    }
}

} // verus!
