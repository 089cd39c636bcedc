use vstd::prelude::*;

use crate::error::ShipmentError;
use crate::state::{GlobalPool, NftDeposit, Pubkey, UserPool};
use crate::validations::{is_admin, validate_admin};

verus! {

/// The records a withdrawal to the owner reads and writes, loaded from the store.
///
/// On success the caller moves one unit of `token_mint` from the program's custody
/// holding to the owner's own holding, then commits the records.
pub struct WithdrawOwner {
    /// The caller, who signed the instruction: the owner or an admin.
    pub payer: Pubkey,
    /// The owner of the deposited token.
    pub user: Pubkey,
    pub global_pool: GlobalPool,
    /// The caller's own user record.
    pub payer_pool: UserPool,
    /// The owner's user record.
    pub user_pool: UserPool,
    /// The token being withdrawn.
    pub token_mint: Pubkey,
    /// The custody record keyed by `token_mint`.
    pub deposit_state: NftDeposit,
}

/// The checks shared by both withdrawals, once the caller is admitted: the owner's
/// records and the token must match, the record must be unlocked and hold a token.
pub open spec fn release_outcome(
    user: Pubkey,
    user_pool: UserPool,
    token_mint: Pubkey,
    deposit_state: NftDeposit,
) -> Result<(), ShipmentError> {
    if user_pool.address@ != user@ {
        Err(ShipmentError::InvalidOwner)
    } else if deposit_state.owner@ != user@ {
        Err(ShipmentError::InvalidOwner)
    } else if deposit_state.mint@ != token_mint@ {
        Err(ShipmentError::InvalidNFTAddress)
    } else if deposit_state.locked {
        Err(ShipmentError::DisabledWithdrawal)
    } else if deposit_state.status == 0 {
        Err(ShipmentError::NotDeposited)
    } else {
        Ok(())
    }
}

/// Runs the checks of [`release_outcome`].
pub fn validate_release(
    user: &Pubkey,
    user_pool: &UserPool,
    token_mint: &Pubkey,
    deposit_state: &NftDeposit,
) -> (r: Result<(), ShipmentError>)
    ensures
        r == release_outcome(*user, *user_pool, *token_mint, *deposit_state),
{
    if !user_pool.address.key_eq(user) {
        return Err(ShipmentError::InvalidOwner);
    }
    if !deposit_state.owner.key_eq(user) {
        return Err(ShipmentError::InvalidOwner);
    }
    if !deposit_state.mint.key_eq(token_mint) {
        return Err(ShipmentError::InvalidNFTAddress);
    }
    if deposit_state.locked {
        return Err(ShipmentError::DisabledWithdrawal);
    }
    if deposit_state.status == 0 {
        return Err(ShipmentError::NotDeposited);
    }
    Ok(())
}

impl WithdrawOwner {
    /// The outcome of the withdrawal: a caller other than the owner must be an admin,
    /// then the checks of [`release_outcome`] apply.
    pub open spec fn outcome(&self) -> Result<(), ShipmentError> {
        if self.payer@ != self.user@ && !is_admin(self.global_pool, self.payer_pool, self.payer) {
            Err(ShipmentError::InvalidAdmin)
        } else {
            release_outcome(self.user, self.user_pool, self.token_mint, self.deposit_state)
        }
    }

    /// The records after a successful withdrawal: the custody record is empty and
    /// unlocked, and both counters shrink by one.
    pub open spec fn after(&self) -> WithdrawOwner {
        WithdrawOwner {
            deposit_state: NftDeposit { status: 0, locked: false, ..self.deposit_state },
            user_pool: UserPool {
                deposit_count: (self.user_pool.deposit_count - 1) as u64,
                ..self.user_pool
            },
            global_pool: GlobalPool {
                total_deposit_count: (self.global_pool.total_deposit_count - 1) as u64,
                ..self.global_pool
            },
            ..*self
        }
    }

    /// Runs the checks of [`WithdrawOwner::outcome`] without changing any record.
    pub fn validate(&self) -> (r: Result<(), ShipmentError>)
        ensures
            r == self.outcome(),
    {
        if !self.payer.key_eq(&self.user) {
            validate_admin(&self.global_pool, &self.payer_pool, &self.payer)?;
        }
        validate_release(&self.user, &self.user_pool, &self.token_mint, &self.deposit_state)
    }

    pub fn process_instruction(&mut self) -> (r: Result<(), ShipmentError>)
        requires
            old(self).outcome() is Ok ==> old(self).user_pool.deposit_count > 0
                && old(self).global_pool.total_deposit_count > 0,
        ensures
            r == old(self).outcome(),
            r is Err ==> *final(self) == *old(self),
            r is Ok ==> *final(self) == old(self).after(),
    {
        self.validate()?;

        self.deposit_state.reset();
        self.user_pool.deposit_count = self.user_pool.deposit_count - 1;
        self.global_pool.total_deposit_count = self.global_pool.total_deposit_count - 1;
        Ok(())
    }
}

} // verus!
