pub mod deposit_nft;
pub mod withdraw_owner;
pub mod withdraw_treasury;
pub mod finalize_deposit;
pub mod update_deposit;
pub mod change_role;
pub mod change_treasury;
pub mod transfer_super_admin;
pub mod init_user;
pub mod register_collection;
