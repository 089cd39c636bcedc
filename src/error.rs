use vstd::prelude::*;

verus! {

/// Every way an instruction of the escrow program can be refused.
#[derive(Clone, Copy, Debug, PartialEq, Eq, Structural)]
pub enum ShipmentError {
    /// The caller is neither the super admin nor an admin-flagged user.
    InvalidAdmin,
    /// The caller is neither the super admin nor an updater- or admin-flagged user.
    InvalidUpdater,
    /// The token metadata account could not be read.
    InvalidMetadata,
    /// The token does not belong to the targeted collection.
    InvalidCollection,
    /// The token metadata declares no collection.
    MetadataCreatorParseError,
    /// The deposit record already holds a token.
    AlreadyDeposited,
    /// The deposit record holds no token.
    NotDeposited,
    /// A user record or deposit record belongs to another identity.
    InvalidOwner,
    /// The deposit record is for another token.
    InvalidNFTAddress,
    /// The deposit record is locked against withdrawal.
    DisabledWithdrawal,
}

impl ShipmentError {
    /// The message shown for this error.
    pub fn message(&self) -> (r: &'static str) {
        match self {
            ShipmentError::InvalidAdmin => "Admin address dismatch",
            ShipmentError::InvalidUpdater => "Updater address dismatch",
            ShipmentError::InvalidMetadata => "Metadata address is invalid",
            ShipmentError::InvalidCollection => "Collection is invalid",
            ShipmentError::MetadataCreatorParseError => "Can not parse creators in metadata",
            ShipmentError::AlreadyDeposited => "Nft is already deposited",
            ShipmentError::NotDeposited => "Nft is not deposited already",
            ShipmentError::InvalidOwner => "NFT Owner key mismatch",
            ShipmentError::InvalidNFTAddress => "No Matching NFT to withdraw",
            ShipmentError::DisabledWithdrawal => "Withdrawal is disabled",
        }
    }
}

} // verus!
