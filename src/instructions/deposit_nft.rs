use vstd::prelude::*;

use crate::error::ShipmentError;
use crate::metadata::{check_metadata, metadata_of, metadata_verdict};
use crate::state::{GlobalPool, NftDeposit, Pubkey, UserPool};

verus! {

/// The records a deposit reads and writes, loaded from the store.
///
/// On success the caller moves one unit of `token_mint` from the depositor's
/// holding into the program's custody holding, then commits the records.
pub struct DepositNft {
    /// The depositor, who signed the instruction.
    pub user: Pubkey,
    pub global_pool: GlobalPool,
    /// The depositor's own user record.
    pub user_pool: UserPool,
    /// The token being deposited.
    pub token_mint: Pubkey,
    /// The raw data of the token's metadata account.
    pub mint_metadata: Vec<u8>,
    /// The custody record keyed by `token_mint`; empty if the token was never deposited.
    pub deposit_state: NftDeposit,
    /// The time the instruction runs, in seconds since the Unix epoch.
    pub unix_timestamp: i64,
}

impl DepositNft {
    /// The outcome of depositing under `collection`: the depositor must own the user
    /// record, the custody record must be empty, and the metadata account must
    /// describe the token and place it in `collection`.
    pub open spec fn outcome(&self, collection: Pubkey) -> Result<(), ShipmentError> {
        if self.user_pool.address@ != self.user@ {
            Err(ShipmentError::InvalidOwner)
        } else if self.deposit_state.status != 0 {
            Err(ShipmentError::AlreadyDeposited)
        } else {
            match metadata_of(self.mint_metadata@) {
                None => Err(ShipmentError::InvalidMetadata),
                Some(m) => metadata_verdict(m, self.token_mint, collection),
            }
        }
    }

    /// The records after a successful deposit for the off-chain account `user`: the
    /// custody record holds the token with status 1, unlocked, and both counters
    /// grow by one.
    pub open spec fn after(&self, user: String) -> DepositNft {
        DepositNft {
            deposit_state: NftDeposit {
                owner: self.user,
                mint: self.token_mint,
                created: self.unix_timestamp,
                status: 1,
                locked: false,
                user,
            },
            user_pool: UserPool {
                deposit_count: (self.user_pool.deposit_count + 1) as u64,
                ..self.user_pool
            },
            global_pool: GlobalPool {
                total_deposit_count: (self.global_pool.total_deposit_count + 1) as u64,
                ..self.global_pool
            },
            ..*self
        }
    }

    /// Runs the checks of [`DepositNft::outcome`] without changing any record.
    pub fn validate(&self, collection: &Pubkey) -> (r: Result<(), ShipmentError>)
        ensures
            r == self.outcome(*collection),
    {
        if !self.user_pool.address.key_eq(&self.user) {
            return Err(ShipmentError::InvalidOwner);
        }
        if self.deposit_state.status != 0 {
            return Err(ShipmentError::AlreadyDeposited);
        }
        check_metadata(self.mint_metadata.as_slice(), &self.token_mint, collection)
    }

    pub fn process_instruction(&mut self, collection: Pubkey, user: String) -> (r: Result<
        (),
        ShipmentError,
    >)
        requires
            old(self).outcome(collection) is Ok ==> old(self).user_pool.deposit_count < u64::MAX
                && old(self).global_pool.total_deposit_count < u64::MAX,
        ensures
            r == old(self).outcome(collection),
            r is Err ==> *final(self) == *old(self),
            r is Ok ==> *final(self) == old(self).after(user),
    {
        self.validate(&collection)?;

        self.deposit_state.reset();
        self.deposit_state.owner = self.user;
        self.deposit_state.user = user;
        self.deposit_state.mint = self.token_mint;
        self.deposit_state.created = self.unix_timestamp;
        self.deposit_state.status = 1;

        self.user_pool.deposit_count = self.user_pool.deposit_count + 1;
        self.global_pool.total_deposit_count = self.global_pool.total_deposit_count + 1;
        Ok(())
    }
}

} // verus!
