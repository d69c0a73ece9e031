use crate::error::ErrorCode;
use crate::pubkey::Pubkey;
use crate::state::Launcher;
use vstd::prelude::*;

verus! {

/// The launcher's first admin and fee pool.
#[derive(Clone, Copy, Debug, PartialEq, Eq)]
pub struct InitArgs {
    pub admin: Pubkey,
    pub fee_pool: Pubkey,
}

/// What `initialize` writes of its accounts.
#[derive(Clone, Copy, Debug, PartialEq, Eq)]
pub struct Initialize {
    /// The launcher account being created.
    pub launcher: Launcher,
}

/// The accounts after `initialize`: the launcher holds the given admin and
/// fee pool.
pub open spec fn initialize_outcome(ctx: Initialize, args: InitArgs) -> Result<Initialize, ErrorCode> {
    Ok(Initialize { launcher: Launcher { fee_pool: args.fee_pool, admin: args.admin } })
}

/// Sets up the launcher.
pub fn initialize(ctx: &mut Initialize, args: InitArgs) -> (res: Result<(), ErrorCode>)
    ensures
        res is Ok,
        initialize_outcome(*old(ctx), args) == Ok::<Initialize, ErrorCode>(*final(ctx)),
{
    ctx.launcher.initialize(args.fee_pool, args.admin)
}

} // verus!
