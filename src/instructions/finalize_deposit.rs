use vstd::prelude::*;

use crate::error::ShipmentError;
use crate::state::{GlobalPool, NftDeposit, Pubkey, UserPool};
use crate::validations::{is_updater, validate_updater};

verus! {

/// The records a finalization reads and writes, loaded from the store.
///
/// On success the caller burns the custodied unit of `token_mint`, closes the custody
/// holding and deletes the emptied custody record from the store, with the reclaimed
/// rent going to the treasury; then it commits the other records.
pub struct FinalizeDeposit {
    /// The caller, who signed the instruction.
    pub updater: Pubkey,
    /// The owner named by the caller.
    pub user: Pubkey,
    pub global_pool: GlobalPool,
    /// The caller's own user record.
    pub updater_pool: UserPool,
    /// The named owner's user record.
    pub user_pool: UserPool,
    /// The token being finalized.
    pub token_mint: Pubkey,
    /// The custody record keyed by `token_mint`.
    pub deposit_state: NftDeposit,
}

impl FinalizeDeposit {
    /// The outcome of finalization: the caller must be an updater, the named owner must
    /// own the user record, the custody record must hold a token, and it must belong
    /// to the named owner.
    pub open spec fn outcome(&self) -> Result<(), ShipmentError> {
        if !is_updater(self.global_pool, self.updater_pool, self.updater) {
            Err(ShipmentError::InvalidUpdater)
        } else if self.user_pool.address@ != self.user@ {
            Err(ShipmentError::InvalidOwner)
        } else if self.deposit_state.status == 0 {
            Err(ShipmentError::NotDeposited)
        } else if self.deposit_state.owner@ != self.user@ {
            Err(ShipmentError::InvalidOwner)
        } else {
            Ok(())
        }
    }

    /// The records after a successful finalization: the custody record is emptied
    /// and unlocked, and both counters shrink by one.
    pub open spec fn after(&self) -> FinalizeDeposit {
        FinalizeDeposit {
            deposit_state: NftDeposit { status: 0, locked: false, ..self.deposit_state },
            user_pool: UserPool {
                deposit_count: (self.user_pool.deposit_count - 1) as u64,
                ..self.user_pool
            },
            global_pool: GlobalPool {
                total_deposit_count: (self.global_pool.total_deposit_count - 1) as u64,
                ..self.global_pool
            },
            ..*self
        }
    }

    /// Runs the checks of [`FinalizeDeposit::outcome`] without changing any record.
    pub fn validate(&self) -> (r: Result<(), ShipmentError>)
        ensures
            r == self.outcome(),
    {
        validate_updater(&self.global_pool, &self.updater_pool, &self.updater)?;
        if !self.user_pool.address.key_eq(&self.user) {
            return Err(ShipmentError::InvalidOwner);
        }
        if self.deposit_state.status == 0 {
            return Err(ShipmentError::NotDeposited);
        }
        if !self.deposit_state.owner.key_eq(&self.user) {
            return Err(ShipmentError::InvalidOwner);
        }
        Ok(())
    }

    pub fn process_instruction(&mut self) -> (r: Result<(), ShipmentError>)
        requires
            old(self).outcome() is Ok ==> old(self).user_pool.deposit_count > 0
                && old(self).global_pool.total_deposit_count > 0,
        ensures
            r == old(self).outcome(),
            r is Err ==> *final(self) == *old(self),
            r is Ok ==> *final(self) == old(self).after(),
    {
        self.validate()?;

        self.deposit_state.reset();
        self.user_pool.deposit_count = self.user_pool.deposit_count - 1;
        self.global_pool.total_deposit_count = self.global_pool.total_deposit_count - 1;
        Ok(())
    }
}

} // verus!
