use vstd::prelude::*;

use crate::error::ShipmentError;
use crate::state::{GlobalPool, Pubkey};

verus! {

/// The records a transfer of the super admin role reads and writes.
pub struct TransferSuperAdmin {
    /// The caller, who signed the instruction.
    pub admin: Pubkey,
    pub global_pool: GlobalPool,
}

impl TransferSuperAdmin {
    /// The outcome of the transfer: only the super admin may hand the role on.
    pub open spec fn outcome(&self) -> Result<(), ShipmentError> {
        if self.global_pool.super_admin@ == self.admin@ {
            Ok(())
        } else {
            Err(ShipmentError::InvalidAdmin)
        }
    }

    /// The records after a successful transfer: the super admin is `new_admin`.
    pub open spec fn after(&self, new_admin: Pubkey) -> TransferSuperAdmin {
        TransferSuperAdmin {
            global_pool: GlobalPool { super_admin: new_admin, ..self.global_pool },
            ..*self
        }
    }

    /// Hands the super admin role to `new_admin`; only the super admin may do so.
    pub fn process_instruction(&mut self, new_admin: Pubkey) -> (r: Result<(), ShipmentError>)
        ensures
            r == old(self).outcome(),
            r is Err ==> *final(self) == *old(self),
            r is Ok ==> *final(self) == old(self).after(new_admin),
    {
        if !self.global_pool.super_admin.key_eq(&self.admin) {
            return Err(ShipmentError::InvalidAdmin);
        }
        self.global_pool.super_admin = new_admin;
        Ok(())
    }
}

} // verus!
