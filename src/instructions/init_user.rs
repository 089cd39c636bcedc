use vstd::prelude::*;

use crate::error::ShipmentError;
use crate::state::{Pubkey, UserPool};

verus! {

/// The records the registration of an identity writes.
pub struct InitUser {
    /// Whoever pays for the new record.
    pub payer: Pubkey,
    /// The identity being registered.
    pub user: Pubkey,
    /// The record being created for `user`.
    pub user_pool: UserPool,
}

impl InitUser {
    /// The records after registration: `user` owns a record with no roles and no
    /// deposits.
    pub open spec fn after(&self) -> InitUser {
        InitUser {
            user_pool: UserPool { address: self.user, deposit_count: 0, admin: false, updater: false },
            ..*self
        }
    }

    /// Fills the new record: owned by `user`, no roles, no deposits.
    pub fn process_instruction(&mut self) -> (r: Result<(), ShipmentError>)
        ensures
            r is Ok,
            *final(self) == old(self).after(),
    {
        self.user_pool = UserPool::new(self.user);
        Ok(())
    }
}

} // verus!
