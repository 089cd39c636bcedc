//! Custodial escrow of collectible tokens: an authority model of one super admin and
//! per-user admin and updater roles, an allow-list of collections, and the custody
//! state machine of each deposited token with the counters that track it.
//!
//! Each instruction works on a context that holds the records it reads and writes,
//! loaded from the record store. An instruction either succeeds and leaves the
//! updated records to commit, or fails and leaves every record as it was. Moving,
//! burning and closing token holdings is left to the caller, once an instruction has
//! succeeded.
pub mod error;
pub mod instructions;
pub mod laws;
pub mod metadata;
pub mod state;
pub mod validations;

use vstd::prelude::*;

use crate::error::ShipmentError;
use crate::instructions::change_role::ChangeRole;
use crate::instructions::change_treasury::ChangeTreasury;
use crate::instructions::deposit_nft::DepositNft;
use crate::instructions::finalize_deposit::FinalizeDeposit;
use crate::instructions::init_user::InitUser;
use crate::instructions::register_collection::{RegisterCollection, RevokeCollection};
use crate::instructions::transfer_super_admin::TransferSuperAdmin;
use crate::instructions::update_deposit::UpdateDeposit;
use crate::instructions::withdraw_owner::WithdrawOwner;
use crate::instructions::withdraw_treasury::WithdrawTreasury;
use crate::state::{GlobalPool, Pubkey};

verus! {

/// Creates the global record: the caller becomes the super admin, `treasury` receives
/// forfeited tokens and reclaimed rent, and nothing is in custody.
pub fn initialize(caller: Pubkey, treasury: Pubkey) -> (r: GlobalPool)
    ensures
        r == (GlobalPool { super_admin: caller, treasury, total_deposit_count: 0 }),
{
    GlobalPool::new(caller, treasury)
}

/// The super admin hands its role to `new_admin`.
pub fn transfer_super_admin(ctx: &mut TransferSuperAdmin, new_admin: Pubkey) -> (r: Result<
    (),
    ShipmentError,
>)
    ensures
        r == old(ctx).outcome(),
        r is Err ==> *final(ctx) == *old(ctx),
        r is Ok ==> *final(ctx) == old(ctx).after(new_admin),
{
    ctx.process_instruction(new_admin)
}

/// An admin sets the treasury.
pub fn change_treasury(ctx: &mut ChangeTreasury, new_treasury: Pubkey) -> (r: Result<
    (),
    ShipmentError,
>)
    ensures
        r == old(ctx).outcome(),
        r is Err ==> *final(ctx) == *old(ctx),
        r is Ok ==> *final(ctx) == old(ctx).after(new_treasury),
{
    ctx.process_instruction(new_treasury)
}

/// Anyone registers an identity: its record starts with no roles and no deposits.
pub fn init_user(ctx: &mut InitUser) -> (r: Result<(), ShipmentError>)
    ensures
        r is Ok,
        *final(ctx) == old(ctx).after(),
{
    ctx.process_instruction()
}

/// An admin sets or clears the roles of a registered identity.
pub fn change_role(ctx: &mut ChangeRole, admin: Option<bool>, updater: Option<bool>) -> (r:
    Result<(), ShipmentError>)
    ensures
        r == old(ctx).outcome(),
        r is Err ==> *final(ctx) == *old(ctx),
        r is Ok ==> *final(ctx) == old(ctx).after(admin, updater),
{
    ctx.process_instruction(admin, updater)
}

/// An admin allow-lists a collection.
pub fn register_collection(ctx: &mut RegisterCollection, collection: Pubkey) -> (r: Result<
    (),
    ShipmentError,
>)
    ensures
        r == old(ctx).outcome(),
        r is Err ==> *final(ctx) == *old(ctx),
        r is Ok ==> *final(ctx) == old(ctx).after(collection),
{
    ctx.process_instruction(collection)
}

/// An admin takes a collection off the allow-list.
pub fn revoke_collection(ctx: &mut RevokeCollection, collection: Pubkey) -> (r: Result<
    (),
    ShipmentError,
>)
    ensures
        r == old(ctx).outcome(),
        r is Err ==> *final(ctx) == *old(ctx),
        r is Ok ==> *final(ctx) == old(ctx).after(collection),
{
    ctx.process_instruction(collection)
}

/// A registered user deposits a token of `collection` for the off-chain account
/// `user`.
pub fn deposit_nft(ctx: &mut DepositNft, collection: Pubkey, user: String) -> (r: Result<
    (),
    ShipmentError,
>)
    requires
        old(ctx).outcome(collection) is Ok ==> old(ctx).user_pool.deposit_count < u64::MAX
            && old(ctx).global_pool.total_deposit_count < u64::MAX,
    ensures
        r == old(ctx).outcome(collection),
        r is Err ==> *final(ctx) == *old(ctx),
        r is Ok ==> *final(ctx) == old(ctx).after(user),
{
    ctx.process_instruction(collection, user)
}

/// An admin or updater changes the custody status, to a nonzero code, or the lock of
/// a deposit.
pub fn update_deposit(ctx: &mut UpdateDeposit, status: Option<u8>, locked: Option<bool>) -> (r:
    Result<(), ShipmentError>)
    requires
        status != Some(0u8),
    ensures
        r == old(ctx).outcome(),
        r is Err ==> *final(ctx) == *old(ctx),
        r is Ok ==> *final(ctx) == old(ctx).after(status, locked),
{
    ctx.process_instruction(status, locked)
}

/// The owner, or an admin, returns a deposited token to its owner.
pub fn withdraw_owner(ctx: &mut WithdrawOwner) -> (r: Result<(), ShipmentError>)
    requires
        old(ctx).outcome() is Ok ==> old(ctx).user_pool.deposit_count > 0
            && old(ctx).global_pool.total_deposit_count > 0,
    ensures
        r == old(ctx).outcome(),
        r is Err ==> *final(ctx) == *old(ctx),
        r is Ok ==> *final(ctx) == old(ctx).after(),
{
    ctx.process_instruction()
}

/// An admin sends a deposited token to the treasury.
pub fn withdraw_treasury(ctx: &mut WithdrawTreasury) -> (r: Result<(), ShipmentError>)
    requires
        old(ctx).outcome() is Ok ==> old(ctx).user_pool.deposit_count > 0
            && old(ctx).global_pool.total_deposit_count > 0,
    ensures
        r == old(ctx).outcome(),
        r is Err ==> *final(ctx) == *old(ctx),
        r is Ok ==> *final(ctx) == old(ctx).after(),
{
    ctx.process_instruction()
}

/// An admin or updater burns a deposited token and closes its custody record.
pub fn finalize_deposit(ctx: &mut FinalizeDeposit) -> (r: Result<(), ShipmentError>)
    requires
        old(ctx).outcome() is Ok ==> old(ctx).user_pool.deposit_count > 0
            && old(ctx).global_pool.total_deposit_count > 0,
    ensures
        r == old(ctx).outcome(),
        r is Err ==> *final(ctx) == *old(ctx),
        r is Ok ==> *final(ctx) == old(ctx).after(),
{
    ctx.process_instruction()
}

} // verus!
