use crate::constants::{LAUNCHPAD_RESERVE, POOL_SOL_LIQUIDITY};
use crate::cpi::{Action, Asset, Party};
use crate::error::ErrorCode;
use crate::pubkey::Pubkey;
use crate::state::{Launcher, Launchpad, PresaleState};
use vstd::prelude::*;

verus! {

/// What `initialize_pool` reads and writes of its accounts.
#[derive(Clone, Copy, Debug, PartialEq, Eq)]
pub struct PoolInitialize {
    /// The launcher.
    pub launcher: Launcher,
    /// The fee pool account that the caller passed.
    pub protool_fee_pool: Pubkey,
    /// The wallet that creates the pool, who signs.
    pub user_wallet: Pubkey,
    /// Lamports held by the launchpad's presale treasury.
    pub presale_treasury_lamports: u64,
    /// The launchpad whose presale ends in the pool.
    pub launchpad: Launchpad,
}

/// The calls that create the pool: the reserve tokens and the treasury's
/// SOL go to the signer's accounts, the wrapped SOL is synced, and the AMM
/// is initialized with both as liquidity.
pub open spec fn pool_plan(nonce: u8, open_time: u64) -> Seq<Action> {
    seq![
        Action::Transfer {
            asset: Asset::Token,
            from: Party::ReserveTokenAccount,
            to: Party::UserTokenCoin,
            amount: LAUNCHPAD_RESERVE,
        },
        Action::Transfer {
            asset: Asset::Lamports,
            from: Party::PresaleTreasury,
            to: Party::UserTokenPc,
            amount: POOL_SOL_LIQUIDITY,
        },
        Action::SyncNative { account: Party::UserTokenPc },
        Action::InitializeAmm {
            nonce,
            open_time,
            init_pc_amount: POOL_SOL_LIQUIDITY,
            init_coin_amount: LAUNCHPAD_RESERVE,
        },
    ]
}

/// The outcome of creating the pool: the first check that fails, in the
/// order in which they are made, or the accounts afterwards (the presale
/// completed) and the plan.
pub open spec fn initialize_pool_outcome(ctx: PoolInitialize, nonce: u8, open_time: u64) -> Result<
    (PoolInitialize, Seq<Action>),
    ErrorCode,
> {
    if ctx.launcher.fee_pool != ctx.protool_fee_pool {
        Err(ErrorCode::InvalidFeePool)
    } else if ctx.launchpad.owner != ctx.user_wallet {
        Err(ErrorCode::InvalidLaunchpadOwner)
    } else if ctx.presale_treasury_lamports < POOL_SOL_LIQUIDITY {
        Err(ErrorCode::NotEnoughSOL)
    } else if ctx.launchpad.presale_state != PresaleState::InProgress {
        Err(ErrorCode::LaunchpadNotInProgress)
    } else {
        Ok(
            (
                PoolInitialize {
                    launchpad: Launchpad { presale_state: PresaleState::Completed, ..ctx.launchpad },
                    ..ctx
                },
                pool_plan(nonce, open_time),
            ),
        )
    }
}

/// Ends the presale and moves its reserve tokens and SOL into a new AMM
/// pool.
pub fn initialize_pool(ctx: &mut PoolInitialize, nonce: u8, open_time: u64) -> (res: Result<
    Vec<Action>,
    ErrorCode,
>)
    ensures
        match initialize_pool_outcome(*old(ctx), nonce, open_time) {
            Ok((next, plan)) => res matches Ok(v) && v@ == plan && *final(ctx) == next,
            Err(e) => res == Err::<Vec<Action>, ErrorCode>(e) && *final(ctx) == *old(ctx),
        },
{
    if !ctx.launcher.fee_pool.key_eq(&ctx.protool_fee_pool) {
        return Err(ErrorCode::InvalidFeePool);
    }
    if !ctx.launchpad.owner.key_eq(&ctx.user_wallet) {
        return Err(ErrorCode::InvalidLaunchpadOwner);
    }
    if ctx.presale_treasury_lamports < POOL_SOL_LIQUIDITY {
        return Err(ErrorCode::NotEnoughSOL);
    }
    ctx.launchpad.check_launchpad_started()?;
    let mut plan: Vec<Action> = Vec::new();
    plan.push(
        Action::Transfer {
            asset: Asset::Token,
            from: Party::ReserveTokenAccount,
            to: Party::UserTokenCoin,
            amount: LAUNCHPAD_RESERVE,
        },
    );
    plan.push(
        Action::Transfer {
            asset: Asset::Lamports,
            from: Party::PresaleTreasury,
            to: Party::UserTokenPc,
            amount: POOL_SOL_LIQUIDITY,
        },
    );
    plan.push(Action::SyncNative { account: Party::UserTokenPc });
    ctx.launchpad.complete_presale()?;
    plan.push(
        Action::InitializeAmm {
            nonce,
            open_time,
            init_pc_amount: POOL_SOL_LIQUIDITY,
            init_coin_amount: LAUNCHPAD_RESERVE,
        },
    );
    assert(plan@ =~= pool_plan(nonce, open_time));
    Ok(plan)
}

} // verus!
