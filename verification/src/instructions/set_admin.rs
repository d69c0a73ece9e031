use crate::error::ErrorCode;
use crate::pubkey::Pubkey;
use crate::state::Launcher;
use vstd::prelude::*;

verus! {

/// The new admin.
#[derive(Clone, Copy, Debug, PartialEq, Eq)]
pub struct SetAdminArgs {
    pub admin: Pubkey,
}

/// What `set_admin` reads and writes of its accounts.
#[derive(Clone, Copy, Debug, PartialEq, Eq)]
pub struct SetAdmin {
    /// The launcher.
    pub launcher: Launcher,
    /// The signer of the instruction.
    pub authority: Pubkey,
}

/// The outcome of `set_admin`: refused unless the signer is the admin;
/// else the launcher with the new admin and the same fee pool.
pub open spec fn set_admin_outcome(ctx: SetAdmin, args: SetAdminArgs) -> Result<SetAdmin, ErrorCode> {
    if ctx.launcher.admin != ctx.authority {
        Err(ErrorCode::InvalidAdmin)
    } else {
        Ok(SetAdmin { launcher: Launcher { admin: args.admin, ..ctx.launcher }, ..ctx })
    }
}

/// Hands the launcher over to a new admin.
pub fn set_admin(ctx: &mut SetAdmin, args: SetAdminArgs) -> (res: Result<(), ErrorCode>)
    ensures
        match set_admin_outcome(*old(ctx), args) {
            Ok(next) => res is Ok && *final(ctx) == next,
            Err(e) => res == Err::<(), ErrorCode>(e) && *final(ctx) == *old(ctx),
        },
{
    let authority = ctx.authority;
    ctx.launcher.check_admin(authority)?;
    ctx.launcher.set_admin(args.admin)
}

} // verus!
