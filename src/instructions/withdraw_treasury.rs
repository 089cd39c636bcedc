use vstd::prelude::*;

use crate::error::ShipmentError;
use crate::instructions::withdraw_owner::{release_outcome, validate_release};
use crate::state::{GlobalPool, NftDeposit, Pubkey, UserPool};
use crate::validations::{is_admin, validate_admin};

verus! {

/// The records a withdrawal to the treasury reads and writes, loaded from the store.
///
/// On success the caller moves one unit of `token_mint` from the program's custody
/// holding to the treasury's holding, then commits the records.
pub struct WithdrawTreasury {
    /// The caller, who signed the instruction.
    pub admin: Pubkey,
    /// The owner of the deposited token.
    pub user: Pubkey,
    pub global_pool: GlobalPool,
    /// The caller's own user record.
    pub admin_pool: UserPool,
    /// The owner's user record.
    pub user_pool: UserPool,
    /// The token being withdrawn.
    pub token_mint: Pubkey,
    /// The custody record keyed by `token_mint`.
    pub deposit_state: NftDeposit,
}

impl WithdrawTreasury {
    /// The outcome of the withdrawal: the caller must be an admin, then the checks of
    /// [`release_outcome`] apply.
    pub open spec fn outcome(&self) -> Result<(), ShipmentError> {
        if !is_admin(self.global_pool, self.admin_pool, self.admin) {
            Err(ShipmentError::InvalidAdmin)
        } else {
            release_outcome(self.user, self.user_pool, self.token_mint, self.deposit_state)
        }
    }

    /// The records after a successful withdrawal: the custody record is empty and
    /// unlocked, and both counters shrink by one.
    pub open spec fn after(&self) -> WithdrawTreasury {
        WithdrawTreasury {
            deposit_state: NftDeposit { status: 0, locked: false, ..self.deposit_state },
            user_pool: UserPool {
                deposit_count: (self.user_pool.deposit_count - 1) as u64,
                ..self.user_pool
            },
            global_pool: GlobalPool {
                total_deposit_count: (self.global_pool.total_deposit_count - 1) as u64,
                ..self.global_pool
            },
            ..*self
        }
    }

    /// Runs the checks of [`WithdrawTreasury::outcome`] without changing any record.
    pub fn validate(&self) -> (r: Result<(), ShipmentError>)
        ensures
            r == self.outcome(),
    {
        validate_admin(&self.global_pool, &self.admin_pool, &self.admin)?;
        validate_release(&self.user, &self.user_pool, &self.token_mint, &self.deposit_state)
    }

    pub fn process_instruction(&mut self) -> (r: Result<(), ShipmentError>)
        requires
            old(self).outcome() is Ok ==> old(self).user_pool.deposit_count > 0
                && old(self).global_pool.total_deposit_count > 0,
        ensures
            r == old(self).outcome(),
            r is Err ==> *final(self) == *old(self),
            r is Ok ==> *final(self) == old(self).after(),
    {
        self.validate()?;

        self.deposit_state.reset();
        self.user_pool.deposit_count = self.user_pool.deposit_count - 1;
        self.global_pool.total_deposit_count = self.global_pool.total_deposit_count - 1;
        Ok(())
    }
}

} // verus!
