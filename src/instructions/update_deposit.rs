use vstd::prelude::*;

use crate::error::ShipmentError;
use crate::state::{GlobalPool, NftDeposit, Pubkey, UserPool};
use crate::validations::{is_updater, validate_updater};

verus! {

/// The records an update of a custody record reads and writes, loaded from the store.
pub struct UpdateDeposit {
    /// The caller, who signed the instruction.
    pub updater: Pubkey,
    pub global_pool: GlobalPool,
    /// The caller's own user record.
    pub updater_pool: UserPool,
    /// The token whose custody record is updated.
    pub token_mint: Pubkey,
    /// The custody record keyed by `token_mint`.
    pub deposit_state: NftDeposit,
}

/// `new` where it is given, else `current`.
pub open spec fn replace_or_keep<T>(new: Option<T>, current: T) -> T {
    match new {
        Some(v) => v,
        None => current,
    }
}

impl UpdateDeposit {
    /// The outcome of the update: the caller must be an updater presenting its own
    /// user record, and the custody record must hold a token.
    pub open spec fn outcome(&self) -> Result<(), ShipmentError> {
        if !is_updater(self.global_pool, self.updater_pool, self.updater) {
            Err(ShipmentError::InvalidUpdater)
        } else if self.updater_pool.address@ != self.updater@ {
            Err(ShipmentError::InvalidUpdater)
        } else if self.deposit_state.status == 0 {
            Err(ShipmentError::NotDeposited)
        } else {
            Ok(())
        }
    }

    /// The records after a successful update: each given field of the custody record
    /// is replaced, the others are kept.
    pub open spec fn after(&self, status: Option<u8>, locked: Option<bool>) -> UpdateDeposit {
        UpdateDeposit {
            deposit_state: NftDeposit {
                status: replace_or_keep(status, self.deposit_state.status),
                locked: replace_or_keep(locked, self.deposit_state.locked),
                ..self.deposit_state
            },
            ..*self
        }
    }

    /// Runs the checks of [`UpdateDeposit::outcome`] without changing any record.
    pub fn validate(&self) -> (r: Result<(), ShipmentError>)
        ensures
            r == self.outcome(),
    {
        validate_updater(&self.global_pool, &self.updater_pool, &self.updater)?;
        if !self.updater_pool.address.key_eq(&self.updater) {
            return Err(ShipmentError::InvalidUpdater);
        }
        if self.deposit_state.status == 0 {
            return Err(ShipmentError::NotDeposited);
        }
        Ok(())
    }

    /// A status code given here must be nonzero: zero marks a record that holds no
    /// token, and only a withdrawal or a finalization empties a record.
    pub fn process_instruction(&mut self, status: Option<u8>, locked: Option<bool>) -> (r: Result<
        (),
        ShipmentError,
    >)
        requires
            status != Some(0u8),
        ensures
            r == old(self).outcome(),
            r is Err ==> *final(self) == *old(self),
            r is Ok ==> *final(self) == old(self).after(status, locked),
    {
        self.validate()?;

        if let Some(s) = status {
            self.deposit_state.status = s;
        }
        if let Some(l) = locked {
            self.deposit_state.locked = l;
        }
        Ok(())
    }
}

} // verus!
