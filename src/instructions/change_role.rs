use vstd::prelude::*;

use crate::error::ShipmentError;
use crate::instructions::update_deposit::replace_or_keep;
use crate::state::{GlobalPool, Pubkey, UserPool};
use crate::validations::{is_admin, validate_admin};

verus! {

/// The records a role change reads and writes, loaded from the store.
pub struct ChangeRole {
    /// The caller, who signed the instruction.
    pub admin: Pubkey,
    /// The identity whose roles change.
    pub user: Pubkey,
    pub global_pool: GlobalPool,
    /// The caller's own user record.
    pub admin_pool: UserPool,
    /// The target's user record.
    pub user_pool: UserPool,
}

impl ChangeRole {
    /// The outcome of the instruction: only an admin may run it.
    pub open spec fn outcome(&self) -> Result<(), ShipmentError> {
        if is_admin(self.global_pool, self.admin_pool, self.admin) {
            Ok(())
        } else {
            Err(ShipmentError::InvalidAdmin)
        }
    }

    /// The records after a successful role change: each given flag of the target
    /// record is replaced, the others are kept.
    pub open spec fn after(&self, admin: Option<bool>, updater: Option<bool>) -> ChangeRole {
        ChangeRole {
            user_pool: UserPool {
                admin: replace_or_keep(admin, self.user_pool.admin),
                updater: replace_or_keep(updater, self.user_pool.updater),
                ..self.user_pool
            },
            ..*self
        }
    }

    /// Sets each given flag on the target record and keeps the others; only an admin
    /// may do so.
    pub fn process_instruction(&mut self, admin: Option<bool>, updater: Option<bool>) -> (r:
        Result<(), ShipmentError>)
        ensures
            r == old(self).outcome(),
            r is Err ==> *final(self) == *old(self),
            r is Ok ==> *final(self) == old(self).after(admin, updater),
    {
        validate_admin(&self.global_pool, &self.admin_pool, &self.admin)?;

        if let Some(a) = admin {
            self.user_pool.admin = a;
        }
        if let Some(u) = updater {
            self.user_pool.updater = u;
        }
        Ok(())
    }
}

} // verus!
