use crate::error::ErrorCode;
use crate::pubkey::Pubkey;
use vstd::prelude::*;

verus! {

/// The launcher's one account: who administers it, and where fees go.
#[derive(Clone, Copy, Debug, PartialEq, Eq)]
pub struct Launcher {
    pub fee_pool: Pubkey,
    pub admin: Pubkey,
}

impl Launcher {
    /// Bytes of the account's data after its discriminator.
    pub const LEN: usize = 32 + 32;

    /// Sets up the launcher with its fee pool and admin.
    pub fn initialize(&mut self, fee_pool: Pubkey, admin: Pubkey) -> (res: Result<(), ErrorCode>)
        ensures
            res is Ok,
            final(self).fee_pool == fee_pool,
            final(self).admin == admin,
    {
        self.fee_pool = fee_pool;
        self.admin = admin;
        Ok(())
    }

    /// Accepts `admin` exactly when it is the launcher's admin.
    pub fn check_admin(&self, admin: Pubkey) -> (res: Result<(), ErrorCode>)
        ensures
            res == (if self.admin == admin {
                Ok::<(), ErrorCode>(())
            } else {
                Err(ErrorCode::InvalidAdmin)
            }),
    {
        if self.admin.key_eq(&admin) {
            Ok(())
        } else {
            Err(ErrorCode::InvalidAdmin)
        }
    }

    /// Replaces the admin; the fee pool stays.
    pub fn set_admin(&mut self, admin: Pubkey) -> (res: Result<(), ErrorCode>)
        ensures
            res is Ok,
            *final(self) == (Launcher { admin, ..*old(self) }),
    {
        self.admin = admin;
        Ok(())
    }

    /// Replaces the fee pool; the admin stays.
    pub fn set_fee_pool(&mut self, fee_pool: Pubkey) -> (res: Result<(), ErrorCode>)
        ensures
            res is Ok,
            *final(self) == (Launcher { fee_pool, ..*old(self) }),
    {
        self.fee_pool = fee_pool;
        Ok(())
    }
}

} // verus!
