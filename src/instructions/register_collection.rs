use vstd::prelude::*;

use crate::error::ShipmentError;
use crate::state::{CollectionPool, GlobalPool, Pubkey, UserPool};
use crate::validations::{is_admin, validate_admin};

verus! {

/// The records the registration of a collection reads and writes.
pub struct RegisterCollection {
    /// The caller, who signed the instruction.
    pub admin: Pubkey,
    pub global_pool: GlobalPool,
    /// The caller's own user record.
    pub admin_pool: UserPool,
    /// The collection's allow-list record, created if it did not exist.
    pub collection_pool: CollectionPool,
}

impl RegisterCollection {
    /// The outcome of the instruction: only an admin may run it.
    pub open spec fn outcome(&self) -> Result<(), ShipmentError> {
        if is_admin(self.global_pool, self.admin_pool, self.admin) {
            Ok(())
        } else {
            Err(ShipmentError::InvalidAdmin)
        }
    }

    /// The records after success: the collection's record names `collection` with
    /// `allowed` set to true.
    pub open spec fn after(&self, collection: Pubkey) -> RegisterCollection {
        RegisterCollection { collection_pool: CollectionPool { address: collection, allowed: true }, ..*self }
    }

    /// Allow-lists `collection`; only an admin may do so.
    pub fn process_instruction(&mut self, collection: Pubkey) -> (r: Result<(), ShipmentError>)
        ensures
            r == old(self).outcome(),
            r is Err ==> *final(self) == *old(self),
            r is Ok ==> *final(self) == old(self).after(collection),
    {
        validate_admin(&self.global_pool, &self.admin_pool, &self.admin)?;
        self.collection_pool.address = collection;
        self.collection_pool.allowed = true;
        Ok(())
    }
}

/// The records the revocation of a collection reads and writes.
pub struct RevokeCollection {
    /// The caller, who signed the instruction.
    pub admin: Pubkey,
    pub global_pool: GlobalPool,
    /// The caller's own user record.
    pub admin_pool: UserPool,
    /// The collection's allow-list record.
    pub collection_pool: CollectionPool,
}

impl RevokeCollection {
    /// The outcome of the instruction: only an admin may run it.
    pub open spec fn outcome(&self) -> Result<(), ShipmentError> {
        if is_admin(self.global_pool, self.admin_pool, self.admin) {
            Ok(())
        } else {
            Err(ShipmentError::InvalidAdmin)
        }
    }

    /// The records after success: the collection's record names `collection` with
    /// `allowed` set to false.
    pub open spec fn after(&self, collection: Pubkey) -> RevokeCollection {
        RevokeCollection { collection_pool: CollectionPool { address: collection, allowed: false }, ..*self }
    }

    /// Takes `collection` off the allow-list, keeping its record; only an admin may do
    /// so.
    pub fn process_instruction(&mut self, collection: Pubkey) -> (r: Result<(), ShipmentError>)
        ensures
            r == old(self).outcome(),
            r is Err ==> *final(self) == *old(self),
            r is Ok ==> *final(self) == old(self).after(collection),
    {
        validate_admin(&self.global_pool, &self.admin_pool, &self.admin)?;
        self.collection_pool.address = collection;
        self.collection_pool.allowed = false;
        Ok(())
    }
}

} // verus!
