use crate::constants::{LAUNCHPAD_PRESALE, LAUNCHPAD_RESERVE};
use crate::cpi::{Action, Asset, Party};
use crate::error::ErrorCode;
use crate::pubkey::Pubkey;
use crate::state::{Launchpad, PresaleState};
use vstd::prelude::*;

verus! {

/// What `start_presale` reads and writes of its accounts.
#[derive(Clone, Copy, Debug, PartialEq, Eq)]
pub struct StartPresale {
    /// The launchpad's owner, who signs.
    pub signer: Pubkey,
    /// The launchpad whose presale starts.
    pub launchpad: Launchpad,
}

/// The transfers that fund a presale from the owner's tokens: the sale
/// allotment, then the pool reserve.
pub open spec fn start_presale_plan() -> Seq<Action> {
    seq![
        Action::Transfer {
            asset: Asset::Token,
            from: Party::SourceTokenAccount,
            to: Party::PresaleTokenAccount,
            amount: LAUNCHPAD_PRESALE,
        },
        Action::Transfer {
            asset: Asset::Token,
            from: Party::SourceTokenAccount,
            to: Party::ReserveTokenAccount,
            amount: LAUNCHPAD_RESERVE,
        },
    ]
}

/// The outcome of starting a presale: refused unless the signer owns the
/// launchpad; else the presale in progress and the plan.
pub open spec fn start_presale_outcome(ctx: StartPresale) -> Result<
    (StartPresale, Seq<Action>),
    ErrorCode,
> {
    if ctx.launchpad.owner != ctx.signer {
        Err(ErrorCode::InvalidLaunchpadOwner)
    } else {
        Ok(
            (
                StartPresale {
                    launchpad: Launchpad { presale_state: PresaleState::InProgress, ..ctx.launchpad },
                    ..ctx
                },
                start_presale_plan(),
            ),
        )
    }
}

/// Starts the presale and funds it from the owner's tokens.
///
/// The instruction also creates the launchpad's presale and reserve token
/// accounts, at addresses fixed by the launchpad; once they exist, creating
/// them again is refused before this function is reached, so a launchpad's
/// presale is started at most once. This function itself does not look at
/// the presale's state.
pub fn start_presale(ctx: &mut StartPresale) -> (res: Result<Vec<Action>, ErrorCode>)
    ensures
        match start_presale_outcome(*old(ctx)) {
            Ok((next, plan)) => res matches Ok(v) && v@ == plan && *final(ctx) == next,
            Err(e) => res == Err::<Vec<Action>, ErrorCode>(e) && *final(ctx) == *old(ctx),
        },
{
    if !ctx.launchpad.owner.key_eq(&ctx.signer) {
        return Err(ErrorCode::InvalidLaunchpadOwner);
    }
    ctx.launchpad.start_presale()?;
    let mut plan: Vec<Action> = Vec::new();
    plan.push(
        Action::Transfer {
            asset: Asset::Token,
            from: Party::SourceTokenAccount,
            to: Party::PresaleTokenAccount,
            amount: LAUNCHPAD_PRESALE,
        },
    );
    plan.push(
        Action::Transfer {
            asset: Asset::Token,
            from: Party::SourceTokenAccount,
            to: Party::ReserveTokenAccount,
            amount: LAUNCHPAD_RESERVE,
        },
    );
    assert(plan@ =~= start_presale_plan());
    Ok(plan)
}

} // verus!
