//! Properties that span the launcher's instructions.
use crate::constants::{LAUNCHPAD_PRESALE, LAUNCHPAD_RESERVE, POOL_SOL_LIQUIDITY};
use crate::cpi::{inflow, outflow, Action, Asset, Party};
use crate::error::ErrorCode;
use crate::instructions::initialize::initialize_outcome;
use crate::instructions::initialize_launchpad::initialize_launchpad_outcome;
use crate::instructions::initialize_pool::initialize_pool_outcome;
use crate::instructions::purchase::purchase_outcome;
use crate::instructions::sell::sell_outcome;
use crate::instructions::set_admin::set_admin_outcome;
use crate::instructions::set_fee_pool::set_fee_pool_outcome;
use crate::instructions::start_presale::start_presale_outcome;
use crate::instructions::{
    InitArgs, InitLaunchpadArgs, Initialize, InitializeLaunchpad,
    PoolInitialize, Purchase, PurchaseArgs, Sell, SellArgs, SetAdmin, SetAdminArgs, SetFeePool,
    SetFeePoolArgs, StartPresale,
};
use crate::pricing::{lemma_fee_split, protocol_fee, purchase_cost, sale_proceeds};
use crate::pubkey::Pubkey;
use crate::state::{Launcher, Launchpad, PresaleState};
use vstd::prelude::*;

verus! {

/// Once the admin hands the launcher to someone else, the new admin's
/// instructions are accepted and the old admin's are refused.
pub proof fn admin_handover(launcher: Launcher, old_admin: Pubkey, new_admin: Pubkey, fee_pool: Pubkey)
    requires
        launcher.admin == old_admin,
        old_admin != new_admin,
    ensures
        ({
            let handed = set_admin_outcome(
                SetAdmin { launcher, authority: old_admin },
                SetAdminArgs { admin: new_admin },
            );
            &&& handed is Ok
            &&& set_fee_pool_outcome(
                SetFeePool { launcher: handed->Ok_0.launcher, authority: old_admin },
                SetFeePoolArgs { fee_pool },
            ) == Err::<SetFeePool, ErrorCode>(ErrorCode::InvalidAdmin)
            &&& set_admin_outcome(
                SetAdmin { launcher: handed->Ok_0.launcher, authority: old_admin },
                SetAdminArgs { admin: old_admin },
            ) == Err::<SetAdmin, ErrorCode>(ErrorCode::InvalidAdmin)
            &&& set_fee_pool_outcome(
                SetFeePool { launcher: handed->Ok_0.launcher, authority: new_admin },
                SetFeePoolArgs { fee_pool },
            ) is Ok
        }),
{
}

/// Fees are only ever paid to the fee pool that the launcher names.
pub proof fn fees_reach_only_the_fee_pool(
    p: Purchase,
    pa: PurchaseArgs,
    s: Sell,
    sa: SellArgs,
    q: PoolInitialize,
    nonce: u8,
    open_time: u64,
)
    ensures
        purchase_outcome(p, pa) is Ok ==> p.protool_fee_pool == p.launcher.fee_pool,
        sell_outcome(s, sa) is Ok ==> s.protool_fee_pool == s.launcher.fee_pool,
        initialize_pool_outcome(q, nonce, open_time) is Ok ==> q.protool_fee_pool
            == q.launcher.fee_pool,
{
}

/// Tokens are bought, sold and pooled only while the presale is in
/// progress, and only by the launchpad's owner.
pub proof fn trading_needs_presale_in_progress(
    p: Purchase,
    pa: PurchaseArgs,
    s: Sell,
    sa: SellArgs,
    q: PoolInitialize,
    nonce: u8,
    open_time: u64,
)
    ensures
        purchase_outcome(p, pa) is Ok ==> p.launchpad.presale_state == PresaleState::InProgress
            && p.launchpad.owner == p.signer,
        sell_outcome(s, sa) is Ok ==> s.launchpad.presale_state == PresaleState::InProgress
            && s.launchpad.owner == s.signer,
        initialize_pool_outcome(q, nonce, open_time) is Ok ==> q.launchpad.presale_state
            == PresaleState::InProgress && q.launchpad.owner == q.user_wallet,
{
}

/// Creating the pool ends the presale: afterwards the launchpad refuses
/// purchases, sales and a second pool.
pub proof fn pool_closes_presale(
    q: PoolInitialize,
    nonce: u8,
    open_time: u64,
    p: Purchase,
    pa: PurchaseArgs,
    s: Sell,
    sa: SellArgs,
    q2: PoolInitialize,
    nonce2: u8,
    open_time2: u64,
)
    requires
        initialize_pool_outcome(q, nonce, open_time) is Ok,
        p.launchpad == initialize_pool_outcome(q, nonce, open_time)->Ok_0.0.launchpad,
        s.launchpad == initialize_pool_outcome(q, nonce, open_time)->Ok_0.0.launchpad,
        q2.launchpad == initialize_pool_outcome(q, nonce, open_time)->Ok_0.0.launchpad,
    ensures
        purchase_outcome(p, pa) is Err,
        sell_outcome(s, sa) is Err,
        initialize_pool_outcome(q2, nonce2, open_time2) is Err,
{
}

/// Starting a presale and creating its pool change only the presale's
/// state: the launchpad keeps its owner and its mint.
pub proof fn launchpad_keeps_owner_and_mint(st: StartPresale, q: PoolInitialize, nonce: u8, open_time: u64)
    ensures
        start_presale_outcome(st) is Ok ==> {
            let next = start_presale_outcome(st)->Ok_0.0.launchpad;
            next.owner == st.launchpad.owner && next.mint == st.launchpad.mint
        },
        initialize_pool_outcome(q, nonce, open_time) is Ok ==> {
            let next = initialize_pool_outcome(q, nonce, open_time)->Ok_0.0.launchpad;
            next.owner == q.launchpad.owner && next.mint == q.launchpad.mint
        },
{
}

/// Starting the presale by its owner puts it in progress, so that a
/// purchase that the launcher accepts and that the presale account can
/// cover goes through.
pub proof fn start_opens_trading(st: StartPresale, p: Purchase, pa: PurchaseArgs)
    requires
        st.launchpad.owner == st.signer,
        p.launchpad == start_presale_outcome(st)->Ok_0.0.launchpad,
        p.signer == st.signer,
        p.launcher.fee_pool == p.protool_fee_pool,
        pa.amount <= p.presale_token_balance,
    ensures
        start_presale_outcome(st) is Ok,
        purchase_outcome(p, pa) is Ok,
{
}

/// Starting a presale moves the whole supply of the sale and of the
/// reserve out of the owner's account, each into its own account.
pub proof fn presale_funding(st: StartPresale)
    requires
        start_presale_outcome(st) is Ok,
    ensures
        ({
            let plan = start_presale_outcome(st)->Ok_0.1;
            &&& outflow(plan, Asset::Token, Party::SourceTokenAccount) == LAUNCHPAD_PRESALE
                + LAUNCHPAD_RESERVE
            &&& inflow(plan, Asset::Token, Party::PresaleTokenAccount) == LAUNCHPAD_PRESALE
            &&& inflow(plan, Asset::Token, Party::ReserveTokenAccount) == LAUNCHPAD_RESERVE
            &&& outflow(plan, Asset::Lamports, Party::Signer) == 0
        }),
{
    let plan = start_presale_outcome(st)->Ok_0.1;
    reveal_with_fuel(outflow, 3);
    reveal_with_fuel(inflow, 3);
}

/// A buyer gets exactly the tokens asked for, which the presale account
/// holds, and pays the price of the whole price units among them, less at
/// most one lamport of rounding; the fee pool gets at most a hundredth of
/// that price, and the treasury the rest of the payment.
pub proof fn purchase_payment(p: Purchase, pa: PurchaseArgs)
    requires
        purchase_outcome(p, pa) is Ok,
    ensures
        ({
            let plan = purchase_outcome(p, pa)->Ok_0;
            let cost = purchase_cost(pa.amount);
            let paid = outflow(plan, Asset::Lamports, Party::Signer);
            &&& inflow(plan, Asset::Token, Party::UserTokenAccount) == pa.amount
            &&& outflow(plan, Asset::Token, Party::PresaleTokenAccount) == pa.amount
            &&& pa.amount <= p.presale_token_balance
            &&& cost - 1 <= paid <= cost
            &&& inflow(plan, Asset::Lamports, Party::ProtocolFeePool) == protocol_fee(cost)
            &&& inflow(plan, Asset::Lamports, Party::ProtocolFeePool) * 100 <= cost
            &&& inflow(plan, Asset::Lamports, Party::PresaleTreasury) + inflow(
                plan,
                Asset::Lamports,
                Party::ProtocolFeePool,
            ) == paid
        }),
{
    let plan = purchase_outcome(p, pa)->Ok_0;
    lemma_fee_split(purchase_cost(pa.amount));
    reveal_with_fuel(outflow, 4);
    reveal_with_fuel(inflow, 4);
}

/// A seller hands over exactly the tokens sold, and the treasury pays out
/// the sale's proceeds, less at most one lamport of rounding, split between
/// the seller and the fee pool.
pub proof fn sale_payout(s: Sell, sa: SellArgs)
    requires
        sell_outcome(s, sa) is Ok,
    ensures
        ({
            let plan = sell_outcome(s, sa)->Ok_0;
            let proceeds = sale_proceeds(sa.amount);
            let paid = outflow(plan, Asset::Lamports, Party::PresaleTreasury);
            &&& outflow(plan, Asset::Token, Party::UserTokenAccount) == sa.amount
            &&& inflow(plan, Asset::Token, Party::PresaleTokenAccount) == sa.amount
            &&& proceeds - 1 <= paid <= proceeds
            &&& inflow(plan, Asset::Lamports, Party::ProtocolFeePool) * 100 <= proceeds
            &&& inflow(plan, Asset::Lamports, Party::Signer) + inflow(
                plan,
                Asset::Lamports,
                Party::ProtocolFeePool,
            ) == paid
        }),
{
    let plan = sell_outcome(s, sa)->Ok_0;
    lemma_fee_split(sale_proceeds(sa.amount));
    reveal_with_fuel(outflow, 4);
    reveal_with_fuel(inflow, 4);
}

/// The pool is seeded with exactly the reserve tokens and the SOL that the
/// instruction takes out of the launchpad, and the treasury holds that SOL.
pub proof fn pool_liquidity(q: PoolInitialize, nonce: u8, open_time: u64)
    requires
        initialize_pool_outcome(q, nonce, open_time) is Ok,
    ensures
        ({
            let plan = initialize_pool_outcome(q, nonce, open_time)->Ok_0.1;
            &&& plan.last() == Action::InitializeAmm {
                nonce,
                open_time,
                init_pc_amount: POOL_SOL_LIQUIDITY,
                init_coin_amount: LAUNCHPAD_RESERVE,
            }
            &&& outflow(plan, Asset::Token, Party::ReserveTokenAccount) == LAUNCHPAD_RESERVE
            &&& inflow(plan, Asset::Token, Party::UserTokenCoin) == LAUNCHPAD_RESERVE
            &&& outflow(plan, Asset::Lamports, Party::PresaleTreasury) == POOL_SOL_LIQUIDITY
            &&& inflow(plan, Asset::Lamports, Party::UserTokenPc) == POOL_SOL_LIQUIDITY
            &&& POOL_SOL_LIQUIDITY <= q.presale_treasury_lamports
        }),
{
    let plan = initialize_pool_outcome(q, nonce, open_time)->Ok_0.1;
    reveal_with_fuel(outflow, 5);
    reveal_with_fuel(inflow, 5);
}

/// Buying tokens and selling the same amount straight back returns the
/// tokens and leaves the buyer, and the treasury, poorer by exactly one
/// fee, while the fee pool gains two fees.
pub proof fn buy_then_sell_back(p: Purchase, s: Sell, amount: u64)
    requires
        purchase_outcome(p, PurchaseArgs { amount }) is Ok,
        sell_outcome(s, SellArgs { amount }) is Ok,
    ensures
        ({
            let bought = purchase_outcome(p, PurchaseArgs { amount })->Ok_0;
            let sold = sell_outcome(s, SellArgs { amount })->Ok_0;
            let fee = protocol_fee(purchase_cost(amount));
            &&& inflow(bought, Asset::Token, Party::UserTokenAccount) == outflow(
                sold,
                Asset::Token,
                Party::UserTokenAccount,
            )
            &&& outflow(bought, Asset::Token, Party::PresaleTokenAccount) == inflow(
                sold,
                Asset::Token,
                Party::PresaleTokenAccount,
            )
            &&& inflow(sold, Asset::Lamports, Party::Signer) - outflow(
                bought,
                Asset::Lamports,
                Party::Signer,
            ) == -fee
            &&& inflow(bought, Asset::Lamports, Party::PresaleTreasury) - outflow(
                sold,
                Asset::Lamports,
                Party::PresaleTreasury,
            ) == -fee
            &&& inflow(bought, Asset::Lamports, Party::ProtocolFeePool) + inflow(
                sold,
                Asset::Lamports,
                Party::ProtocolFeePool,
            ) == 2 * fee
        }),
{
    lemma_fee_split(purchase_cost(amount));
    reveal_with_fuel(outflow, 4);
    reveal_with_fuel(inflow, 4);
}

/// A purchase that the launcher accepts, by the launchpad's owner, while
/// the presale is in progress and for no more tokens than the presale
/// account holds, goes through for every amount. It hands over exactly the
/// tokens asked for, and charges 220 lamports per whole 10^9 token units:
/// 99% of that (rounded down) to the treasury and 1% (rounded down) to the
/// fee pool.
pub proof fn purchase_pays_the_presale_price(p: Purchase, amount: u64)
    requires
        p.launchpad.owner == p.signer,
        p.launcher.fee_pool == p.protool_fee_pool,
        p.launchpad.presale_state == PresaleState::InProgress,
        amount <= p.presale_token_balance,
    ensures
        purchase_outcome(p, PurchaseArgs { amount }) == Ok::<Seq<Action>, ErrorCode>(
            seq![
                Action::Transfer {
                    asset: Asset::Token,
                    from: Party::PresaleTokenAccount,
                    to: Party::UserTokenAccount,
                    amount,
                },
                Action::Transfer {
                    asset: Asset::Lamports,
                    from: Party::Signer,
                    to: Party::PresaleTreasury,
                    amount: ((amount / 1_000_000_000) * 220 * 99 / 100) as u64,
                },
                Action::Transfer {
                    asset: Asset::Lamports,
                    from: Party::Signer,
                    to: Party::ProtocolFeePool,
                    amount: ((amount / 1_000_000_000) * 220 / 100) as u64,
                },
            ],
        ),
{
}

/// A sale that the launcher accepts, by the launchpad's owner, while the
/// presale is in progress goes through for every amount. It takes back
/// exactly the tokens sold, and the treasury pays 220 lamports per whole
/// 10^9 token units: 99% of that (rounded down) to the seller and 1%
/// (rounded down) to the fee pool.
pub proof fn sale_pays_the_presale_price(s: Sell, amount: u64)
    requires
        s.launchpad.owner == s.signer,
        s.launcher.fee_pool == s.protool_fee_pool,
        s.launchpad.presale_state == PresaleState::InProgress,
    ensures
        sell_outcome(s, SellArgs { amount }) == Ok::<Seq<Action>, ErrorCode>(
            seq![
                Action::Transfer {
                    asset: Asset::Token,
                    from: Party::UserTokenAccount,
                    to: Party::PresaleTokenAccount,
                    amount,
                },
                Action::Transfer {
                    asset: Asset::Lamports,
                    from: Party::PresaleTreasury,
                    to: Party::Signer,
                    amount: ((amount / 1_000_000_000) * 220 * 99 / 100) as u64,
                },
                Action::Transfer {
                    asset: Asset::Lamports,
                    from: Party::PresaleTreasury,
                    to: Party::ProtocolFeePool,
                    amount: ((amount / 1_000_000_000) * 220 / 100) as u64,
                },
            ],
        ),
{
}

/// Creating the pool, when the launcher accepts the fee pool, the wallet
/// owns the launchpad, the treasury holds at least 100 SOL and the presale
/// is in progress, always succeeds; and whenever it succeeds the presale is
/// completed afterwards, the launchpad's owner and mint unchanged, and the
/// other accounts unchanged.
pub proof fn pool_completes_the_presale(q: PoolInitialize, nonce: u8, open_time: u64)
    ensures
        q.launcher.fee_pool == q.protool_fee_pool && q.launchpad.owner == q.user_wallet
            && q.presale_treasury_lamports >= 100_000_000_000 && q.launchpad.presale_state
            == PresaleState::InProgress ==> initialize_pool_outcome(q, nonce, open_time) is Ok,
        initialize_pool_outcome(q, nonce, open_time) is Ok ==> initialize_pool_outcome(
            q,
            nonce,
            open_time,
        )->Ok_0.0 == (PoolInitialize {
            launchpad: Launchpad {
                owner: q.launchpad.owner,
                mint: q.launchpad.mint,
                presale_state: PresaleState::Completed,
            },
            ..q
        }),
{
}

/// Creating a launchpad succeeds exactly when the signer is the owner it
/// names, and then leaves the launchpad with that owner and mint and its
/// presale open, whatever the account held before.
pub proof fn new_launchpad_is_open(ctx: InitializeLaunchpad, args: InitLaunchpadArgs)
    ensures
        (initialize_launchpad_outcome(ctx, args) is Ok) == (ctx.signer == args.owner),
        initialize_launchpad_outcome(ctx, args) is Ok ==> initialize_launchpad_outcome(
            ctx,
            args,
        )->Ok_0 == (InitializeLaunchpad {
            signer: ctx.signer,
            launchpad: Launchpad {
                owner: args.owner,
                mint: args.mint,
                presale_state: PresaleState::Open,
            },
        }),
{
}

/// Starting a presale succeeds exactly for the launchpad's owner, and then
/// leaves it in progress with the same owner and mint.
pub proof fn started_presale_is_in_progress(st: StartPresale)
    ensures
        (start_presale_outcome(st) is Ok) == (st.launchpad.owner == st.signer),
        start_presale_outcome(st) is Ok ==> start_presale_outcome(st)->Ok_0.0 == (StartPresale {
            signer: st.signer,
            launchpad: Launchpad {
                owner: st.launchpad.owner,
                mint: st.launchpad.mint,
                presale_state: PresaleState::InProgress,
            },
        }),
{
}

/// Setting the fee pool succeeds exactly for the admin, and then the
/// launcher's fee pool is the new one and its admin the same; a refusal
/// leaves the launcher as it was.
pub proof fn fee_pool_is_replaced(ctx: SetFeePool, args: SetFeePoolArgs)
    ensures
        (set_fee_pool_outcome(ctx, args) is Ok) == (ctx.launcher.admin == ctx.authority),
        set_fee_pool_outcome(ctx, args) is Ok ==> set_fee_pool_outcome(ctx, args)->Ok_0
            == (SetFeePool {
            launcher: Launcher { fee_pool: args.fee_pool, admin: ctx.launcher.admin },
            authority: ctx.authority,
        }),
        set_fee_pool_outcome(ctx, args) is Err ==> set_fee_pool_outcome(ctx, args)
            == Err::<SetFeePool, ErrorCode>(ErrorCode::InvalidAdmin),
{
}

/// Setting the admin succeeds exactly for the admin, and then the
/// launcher's admin is the new one and its fee pool the same.
pub proof fn admin_is_replaced(ctx: SetAdmin, args: SetAdminArgs)
    ensures
        (set_admin_outcome(ctx, args) is Ok) == (ctx.launcher.admin == ctx.authority),
        set_admin_outcome(ctx, args) is Ok ==> set_admin_outcome(ctx, args)->Ok_0 == (SetAdmin {
            launcher: Launcher { fee_pool: ctx.launcher.fee_pool, admin: args.admin },
            authority: ctx.authority,
        }),
        set_admin_outcome(ctx, args) is Err ==> set_admin_outcome(ctx, args) == Err::<
            SetAdmin,
            ErrorCode,
        >(ErrorCode::InvalidAdmin),
{
}

/// Initializing the launcher always succeeds and leaves it with exactly
/// the given admin and fee pool.
pub proof fn launcher_holds_its_initial_keys(ctx: Initialize, args: InitArgs)
    ensures
        initialize_outcome(ctx, args) == Ok::<Initialize, ErrorCode>(
            Initialize { launcher: Launcher { fee_pool: args.fee_pool, admin: args.admin } },
        ),
{
}

} // verus!
