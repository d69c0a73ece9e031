use crate::error::ErrorCode;
use crate::pubkey::Pubkey;
use crate::state::Launcher;
use vstd::prelude::*;

verus! {

/// The new fee pool.
#[derive(Clone, Copy, Debug, PartialEq, Eq)]
pub struct SetFeePoolArgs {
    pub fee_pool: Pubkey,
}

/// What `set_fee_pool` reads and writes of its accounts.
#[derive(Clone, Copy, Debug, PartialEq, Eq)]
pub struct SetFeePool {
    /// The launcher.
    pub launcher: Launcher,
    /// The signer of the instruction.
    pub authority: Pubkey,
}

/// The outcome of `set_fee_pool`: refused unless the signer is the admin;
/// else the launcher with the new fee pool and the same admin.
pub open spec fn set_fee_pool_outcome(ctx: SetFeePool, args: SetFeePoolArgs) -> Result<SetFeePool, ErrorCode> {
    if ctx.launcher.admin != ctx.authority {
        Err(ErrorCode::InvalidAdmin)
    } else {
        Ok(SetFeePool { launcher: Launcher { fee_pool: args.fee_pool, ..ctx.launcher }, ..ctx })
    }
}

/// Points the launcher's fees to a new pool.
pub fn set_fee_pool(ctx: &mut SetFeePool, args: SetFeePoolArgs) -> (res: Result<(), ErrorCode>)
    ensures
        match set_fee_pool_outcome(*old(ctx), args) {
            Ok(next) => res is Ok && *final(ctx) == next,
            Err(e) => res == Err::<(), ErrorCode>(e) && *final(ctx) == *old(ctx),
        },
{
    let authority = ctx.authority;
    ctx.launcher.check_admin(authority)?;
    ctx.launcher.set_fee_pool(args.fee_pool)
}

} // verus!
