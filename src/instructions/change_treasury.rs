use vstd::prelude::*;

use crate::error::ShipmentError;
use crate::state::{GlobalPool, Pubkey, UserPool};
use crate::validations::{is_admin, validate_admin};

verus! {

/// The records a treasury change reads and writes, loaded from the store.
pub struct ChangeTreasury {
    /// The caller, who signed the instruction.
    pub admin: Pubkey,
    pub global_pool: GlobalPool,
    /// The caller's own user record.
    pub admin_pool: UserPool,
}

impl ChangeTreasury {
    /// The outcome of the instruction: only an admin may run it.
    pub open spec fn outcome(&self) -> Result<(), ShipmentError> {
        if is_admin(self.global_pool, self.admin_pool, self.admin) {
            Ok(())
        } else {
            Err(ShipmentError::InvalidAdmin)
        }
    }

    /// The records after a successful change: the treasury is `new_treasury`.
    pub open spec fn after(&self, new_treasury: Pubkey) -> ChangeTreasury {
        ChangeTreasury {
            global_pool: GlobalPool { treasury: new_treasury, ..self.global_pool },
            ..*self
        }
    }

    /// Replaces the treasury; only an admin may do so.
    pub fn process_instruction(&mut self, new_treasury: Pubkey) -> (r: Result<(), ShipmentError>)
        ensures
            r == old(self).outcome(),
            r is Err ==> *final(self) == *old(self),
            r is Ok ==> *final(self) == old(self).after(new_treasury),
    {
        validate_admin(&self.global_pool, &self.admin_pool, &self.admin)?;
        self.global_pool.treasury = new_treasury;
        Ok(())
    }
}

} // verus!
