use vstd::prelude::*;

verus! {

/// The ways in which an instruction of the launcher is refused.
#[derive(Clone, Copy, Debug, PartialEq, Eq, Structural)]
pub enum ErrorCode {
    /// The signer is not the launcher's admin.
    InvalidAdmin,
    /// The signer is not the owner named in the instruction.
    InvalidOwner,
    /// The launchpad's owner does not match.
    InvalidLaunchpadOwner,
    /// The fee pool account is not the launcher's fee pool.
    InvalidFeePool,
    /// The launchpad's presale is not in progress.
    LaunchpadNotInProgress,
    /// The presale account holds fewer tokens than requested.
    NotEnoughBalance,
    /// The presale treasury holds less SOL than the pool needs.
    NotEnoughSOL,
}

} // verus!
