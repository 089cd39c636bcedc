use vstd::prelude::*;

use crate::error::ShipmentError;
use crate::state::{GlobalPool, Pubkey, UserPool};

verus! {

/// `caller` may act as an admin: it is the super admin, or it presents its own
/// user record with the admin flag set.
pub open spec fn is_admin(global_pool: GlobalPool, user_pool: UserPool, caller: Pubkey) -> bool {
    caller@ == global_pool.super_admin@ || (user_pool.address@ == caller@ && user_pool.admin)
}

/// `caller` may act as an updater: it is the super admin, or it presents its own
/// user record with the updater or the admin flag set.
pub open spec fn is_updater(global_pool: GlobalPool, user_pool: UserPool, caller: Pubkey) -> bool {
    caller@ == global_pool.super_admin@ || (user_pool.address@ == caller@ && (user_pool.updater
        || user_pool.admin))
}

/// Admits `admin` to an admin-only instruction, given the caller's own user record.
pub fn validate_admin(global_pool: &GlobalPool, user_pool: &UserPool, admin: &Pubkey) -> (r:
    Result<(), ShipmentError>)
    ensures
        r is Ok <==> is_admin(*global_pool, *user_pool, *admin),
        r is Err ==> r == Err::<(), ShipmentError>(ShipmentError::InvalidAdmin),
{
    if !global_pool.super_admin.key_eq(admin) {
        if !(user_pool.address.key_eq(admin) && user_pool.admin) {
            return Err(ShipmentError::InvalidAdmin);
        }
    }
    Ok(())
}

/// Admits `updater` to an updater instruction, given the caller's own user record.
pub fn validate_updater(global_pool: &GlobalPool, user_pool: &UserPool, updater: &Pubkey) -> (r:
    Result<(), ShipmentError>)
    ensures
        r is Ok <==> is_updater(*global_pool, *user_pool, *updater),
        r is Err ==> r == Err::<(), ShipmentError>(ShipmentError::InvalidUpdater),
{
    if !global_pool.super_admin.key_eq(updater) {
        if !(user_pool.address.key_eq(updater) && (user_pool.updater || user_pool.admin)) {
            return Err(ShipmentError::InvalidUpdater);
        }
    }
    Ok(())
}

/// Every admin may also act as an updater.
pub proof fn lemma_admin_is_updater(global_pool: GlobalPool, user_pool: UserPool, caller: Pubkey)
    requires
        is_admin(global_pool, user_pool, caller),
    ensures
        is_updater(global_pool, user_pool, caller),
{
}

} // verus!
