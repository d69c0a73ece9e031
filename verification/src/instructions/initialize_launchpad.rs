use crate::error::ErrorCode;
use crate::pubkey::Pubkey;
use crate::state::{Launchpad, PresaleState};
use vstd::prelude::*;

verus! {

/// The owner and mint of a new launchpad.
#[derive(Clone, Copy, Debug, PartialEq, Eq)]
pub struct InitLaunchpadArgs {
    pub owner: Pubkey,
    pub mint: Pubkey,
}

/// What `initialize_launchpad` reads and writes of its accounts.
#[derive(Clone, Copy, Debug, PartialEq, Eq)]
pub struct InitializeLaunchpad {
    /// The signer of the instruction.
    pub signer: Pubkey,
    /// The launchpad account being created.
    pub launchpad: Launchpad,
}

/// The outcome of `initialize_launchpad`: refused unless the signer is the
/// owner named in the instruction; else the launchpad for that owner and
/// mint, its presale open.
pub open spec fn initialize_launchpad_outcome(ctx: InitializeLaunchpad, args: InitLaunchpadArgs) -> Result<
    InitializeLaunchpad,
    ErrorCode,
> {
    if ctx.signer != args.owner {
        Err(ErrorCode::InvalidOwner)
    } else {
        Ok(
            InitializeLaunchpad {
                launchpad: Launchpad {
                    owner: args.owner,
                    mint: args.mint,
                    presale_state: PresaleState::Open,
                },
                ..ctx
            },
        )
    }
}

/// Creates a launchpad for the signer's token.
pub fn initialize_launchpad(ctx: &mut InitializeLaunchpad, args: InitLaunchpadArgs) -> (res: Result<
    (),
    ErrorCode,
>)
    ensures
        match initialize_launchpad_outcome(*old(ctx), args) {
            Ok(next) => res is Ok && *final(ctx) == next,
            Err(e) => res == Err::<(), ErrorCode>(e) && *final(ctx) == *old(ctx),
        },
{
    if !ctx.signer.key_eq(&args.owner) {
        return Err(ErrorCode::InvalidOwner);
    }
    ctx.launchpad.initialize_launchpad(args.owner, args.mint)
}

} // verus!
