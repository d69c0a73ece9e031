use crate::error::ErrorCode;
use crate::pubkey::Pubkey;
use vstd::prelude::*;

verus! {

/// Where a launchpad's presale stands.
#[derive(Clone, Copy, Debug, PartialEq, Eq, Structural)]
pub enum PresaleState {
    Open,
    InProgress,
    Completed,
}

/// A token's launchpad: its owner, its mint, and its presale's state.
#[derive(Clone, Copy, Debug, PartialEq, Eq)]
pub struct Launchpad {
    pub owner: Pubkey,
    pub mint: Pubkey,
    pub presale_state: PresaleState,
}

impl Launchpad {
    /// Bytes of the account's data after its discriminator.
    pub const LEN: usize = 32 + 32 + 1;

    /// Accepts exactly the launchpad's owner.
    pub fn check_launchpad_owner(&self, owner: Pubkey) -> (res: Result<(), ErrorCode>)
        ensures
            res == (if self.owner == owner {
                Ok::<(), ErrorCode>(())
            } else {
                Err(ErrorCode::InvalidLaunchpadOwner)
            }),
    {
        if self.owner.key_eq(&owner) {
            Ok(())
        } else {
            Err(ErrorCode::InvalidLaunchpadOwner)
        }
    }

    /// Accepts exactly when the presale is in progress.
    pub fn check_launchpad_started(&self) -> (res: Result<(), ErrorCode>)
        ensures
            res == (if self.presale_state == PresaleState::InProgress {
                Ok::<(), ErrorCode>(())
            } else {
                Err(ErrorCode::LaunchpadNotInProgress)
            }),
    {
        if self.presale_state == PresaleState::InProgress {
            Ok(())
        } else {
            Err(ErrorCode::LaunchpadNotInProgress)
        }
    }

    /// Sets up the launchpad for `owner` and `mint`, its presale open.
    pub fn initialize_launchpad(&mut self, owner: Pubkey, mint: Pubkey) -> (res: Result<(), ErrorCode>)
        ensures
            res is Ok,
            *final(self) == (Launchpad { owner, mint, presale_state: PresaleState::Open }),
    {
        self.owner = owner;
        self.mint = mint;
        self.presale_state = PresaleState::Open;
        Ok(())
    }

    /// Puts the presale in progress. The launchpad itself does not look at
    /// the state it was in: a presale is started only once because starting
    /// it creates the launchpad's presale and reserve token accounts, and
    /// creating an account that already exists is refused.
    pub fn start_presale(&mut self) -> (res: Result<(), ErrorCode>)
        ensures
            res is Ok,
            *final(self) == (Launchpad { presale_state: PresaleState::InProgress, ..*old(self) }),
    {
        self.presale_state = PresaleState::InProgress;
        Ok(())
    }

    /// Marks the presale completed.
    pub fn complete_presale(&mut self) -> (res: Result<(), ErrorCode>)
        ensures
            res is Ok,
            *final(self) == (Launchpad { presale_state: PresaleState::Completed, ..*old(self) }),
    {
        self.presale_state = PresaleState::Completed;
        Ok(())
    }
}

} // verus!
