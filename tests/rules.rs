use shipment_sc::error::ShipmentError;
use shipment_sc::instructions::change_treasury::ChangeTreasury;
use shipment_sc::instructions::deposit_nft::DepositNft;
use shipment_sc::instructions::finalize_deposit::FinalizeDeposit;
use shipment_sc::instructions::register_collection::{RegisterCollection, RevokeCollection};
use shipment_sc::instructions::transfer_super_admin::TransferSuperAdmin;
use shipment_sc::instructions::update_deposit::UpdateDeposit;
use shipment_sc::instructions::withdraw_owner::{validate_release, WithdrawOwner};
use shipment_sc::instructions::withdraw_treasury::WithdrawTreasury;
use shipment_sc::metadata::{check_metadata, validate_collection, TokenMetadata};
use shipment_sc::state::{CollectionPool, GlobalPool, NftDeposit, Pubkey, UserPool};
use shipment_sc::validations::{validate_admin, validate_updater};
use shipment_sc::{
    change_treasury, deposit_nft, finalize_deposit, register_collection, revoke_collection,
    transfer_super_admin, update_deposit, withdraw_owner, withdraw_treasury,
};

fn key(b: u8) -> Pubkey {
    Pubkey::new_from_array([b; 32])
}

fn push_string(out: &mut Vec<u8>, s: &str) {
    out.extend_from_slice(&(s.len() as u32).to_le_bytes());
    out.extend_from_slice(s.as_bytes());
}

fn metadata_bytes(mint: Pubkey, collection: Option<Pubkey>, creators: Option<Vec<Pubkey>>) -> Vec<u8> {
    let mut out = vec![4u8];
    out.extend_from_slice(&[9u8; 32]);
    out.extend_from_slice(&mint.to_bytes());
    push_string(&mut out, "Crate");
    push_string(&mut out, "CRT");
    push_string(&mut out, "");
    out.extend_from_slice(&0u16.to_le_bytes());
    match creators {
        None => out.push(0),
        Some(cs) => {
            out.push(1);
            out.extend_from_slice(&(cs.len() as u32).to_le_bytes());
            for c in cs {
                out.extend_from_slice(&c.to_bytes());
                out.push(0);
                out.push(50);
            }
        }
    }
    out.push(0);
    out.push(0);
    out.push(0);
    out.push(0);
    match collection {
        None => out.push(0),
        Some(c) => {
            out.push(1);
            out.push(0);
            out.extend_from_slice(&c.to_bytes());
        }
    }
    out.push(0);
    out
}

fn user(address: u8, admin: bool, updater: bool, deposit_count: u64) -> UserPool {
    UserPool { address: key(address), deposit_count, admin, updater }
}

fn global(total: u64) -> GlobalPool {
    GlobalPool { super_admin: key(1), treasury: key(2), total_deposit_count: total }
}

fn held(owner: u8, mint: u8, status: u8, locked: bool) -> NftDeposit {
    NftDeposit {
        owner: key(owner),
        mint: key(mint),
        created: 77,
        status,
        locked,
        user: "acct".to_string(),
    }
}

fn deposit_ctx(user_pool: UserPool, deposit_state: NftDeposit, meta: Vec<u8>) -> DepositNft {
    DepositNft {
        user: key(3),
        global_pool: global(4),
        user_pool,
        token_mint: key(6),
        mint_metadata: meta,
        deposit_state,
        unix_timestamp: 123,
    }
}

#[test]
fn admin_check_admits_super_admin_and_flagged_admin() {
    assert_eq!(validate_admin(&global(0), &user(9, false, false, 0), &key(1)), Ok(()));
    assert_eq!(validate_admin(&global(0), &user(4, true, false, 0), &key(4)), Ok(()));
    assert_eq!(
        validate_admin(&global(0), &user(4, false, true, 0), &key(4)),
        Err(ShipmentError::InvalidAdmin)
    );
    assert_eq!(
        validate_admin(&global(0), &user(5, true, false, 0), &key(4)),
        Err(ShipmentError::InvalidAdmin)
    );
}

#[test]
fn updater_check_admits_updaters_and_admins() {
    assert_eq!(validate_updater(&global(0), &user(9, false, false, 0), &key(1)), Ok(()));
    assert_eq!(validate_updater(&global(0), &user(4, false, true, 0), &key(4)), Ok(()));
    assert_eq!(validate_updater(&global(0), &user(4, true, false, 0), &key(4)), Ok(()));
    assert_eq!(
        validate_updater(&global(0), &user(4, false, false, 0), &key(4)),
        Err(ShipmentError::InvalidUpdater)
    );
    assert_eq!(
        validate_updater(&global(0), &user(5, false, true, 0), &key(4)),
        Err(ShipmentError::InvalidUpdater)
    );
}

#[test]
fn pubkey_equality_is_bytewise() {
    let mut bytes = [3u8; 32];
    assert!(key(3).key_eq(&Pubkey::new_from_array(bytes)));
    bytes[31] = 4;
    assert!(!key(3).key_eq(&Pubkey::new_from_array(bytes)));
    assert_ne!(key(3), Pubkey::new_from_array(bytes));
    assert_eq!(Pubkey::new_from_array(bytes).to_bytes(), bytes);
}

#[test]
fn collection_check_accepts_declared_collection_or_creator() {
    let by_collection = TokenMetadata { mint: key(6), collection: Some(key(5)), creators: Some(vec![]) };
    assert_eq!(validate_collection(&by_collection, &key(5)), Ok(()));
    let by_creator = TokenMetadata { mint: key(6), collection: Some(key(8)), creators: Some(vec![key(7), key(5)]) };
    assert_eq!(validate_collection(&by_creator, &key(5)), Ok(()));
    let neither = TokenMetadata { mint: key(6), collection: Some(key(8)), creators: Some(vec![key(7)]) };
    assert_eq!(validate_collection(&neither, &key(5)), Err(ShipmentError::InvalidCollection));
}

#[test]
fn collection_check_needs_declared_collection() {
    let no_collection = TokenMetadata { mint: key(6), collection: None, creators: Some(vec![key(5)]) };
    assert_eq!(
        validate_collection(&no_collection, &key(5)),
        Err(ShipmentError::MetadataCreatorParseError)
    );
    let no_creators = TokenMetadata { mint: key(6), collection: Some(key(5)), creators: None };
    assert_eq!(validate_collection(&no_creators, &key(5)), Ok(()));
    assert_eq!(validate_collection(&no_creators, &key(7)), Err(ShipmentError::InvalidCollection));
}

#[test]
fn metadata_account_is_decoded() {
    let data = metadata_bytes(key(6), Some(key(8)), Some(vec![key(7), key(5)]));
    assert_eq!(check_metadata(&data, &key(6), &key(5)), Ok(()));
    assert_eq!(check_metadata(&data, &key(6), &key(8)), Ok(()));
    assert_eq!(check_metadata(&data, &key(6), &key(6)), Err(ShipmentError::InvalidCollection));
    let bare = metadata_bytes(key(6), None, Some(vec![key(5)]));
    assert_eq!(check_metadata(&bare, &key(6), &key(5)), Err(ShipmentError::MetadataCreatorParseError));
}

#[test]
fn metadata_account_of_another_token_is_refused() {
    let data = metadata_bytes(key(7), Some(key(5)), Some(vec![key(5)]));
    assert_eq!(check_metadata(&data, &key(6), &key(5)), Err(ShipmentError::InvalidMetadata));
    assert_eq!(check_metadata(&data, &key(7), &key(5)), Ok(()));
    let mut ctx = deposit_ctx(user(3, false, false, 0), NftDeposit::empty(key(6)), data);
    assert_eq!(deposit_nft(&mut ctx, key(5), "a".to_string()), Err(ShipmentError::InvalidMetadata));
    assert_eq!(ctx.global_pool.total_deposit_count, 4);
    assert_eq!(ctx.deposit_state.status, 0);
}

#[test]
fn deposit_with_declared_collection_and_no_creators() {
    let data = metadata_bytes(key(6), Some(key(5)), None);
    let mut ctx = deposit_ctx(user(3, false, false, 0), NftDeposit::empty(key(6)), data);
    assert_eq!(deposit_nft(&mut ctx, key(5), "a".to_string()), Ok(()));
    assert_eq!(ctx.deposit_state.status, 1);
    assert_eq!(ctx.user_pool.deposit_count, 1);
    assert_eq!(ctx.global_pool.total_deposit_count, 5);
}

#[test]
fn metadata_account_of_wrong_shape_is_refused() {
    assert_eq!(check_metadata(&[], &key(6), &key(5)), Err(ShipmentError::InvalidMetadata));
    let mut wrong_key = metadata_bytes(key(6), Some(key(5)), Some(vec![key(5)]));
    wrong_key[0] = 6;
    assert_eq!(check_metadata(&wrong_key, &key(6), &key(5)), Err(ShipmentError::InvalidMetadata));
    let truncated = metadata_bytes(key(6), Some(key(5)), Some(vec![key(5)]))[..40].to_vec();
    assert_eq!(check_metadata(&truncated, &key(6), &key(5)), Err(ShipmentError::InvalidMetadata));
}

#[test]
fn deposit_refused_for_foreign_user_record() {
    let meta = metadata_bytes(key(6), Some(key(5)), Some(vec![]));
    let mut ctx = deposit_ctx(user(9, false, false, 0), NftDeposit::empty(key(6)), meta);
    assert_eq!(deposit_nft(&mut ctx, key(5), "a".to_string()), Err(ShipmentError::InvalidOwner));
    assert_eq!(ctx.global_pool.total_deposit_count, 4);
}

#[test]
fn deposit_refused_when_already_deposited() {
    let meta = metadata_bytes(key(6), Some(key(5)), Some(vec![]));
    let mut ctx = deposit_ctx(user(3, false, false, 1), held(3, 6, 2, false), meta);
    assert_eq!(
        deposit_nft(&mut ctx, key(5), "b".to_string()),
        Err(ShipmentError::AlreadyDeposited)
    );
    assert_eq!(ctx.user_pool.deposit_count, 1);
    assert_eq!(ctx.global_pool.total_deposit_count, 4);
    assert_eq!(ctx.deposit_state.status, 2);
    assert_eq!(ctx.deposit_state.user, "acct");
}

#[test]
fn deposit_refused_for_unreadable_metadata() {
    let mut ctx = deposit_ctx(user(3, false, false, 0), NftDeposit::empty(key(6)), vec![0u8; 8]);
    assert_eq!(deposit_nft(&mut ctx, key(5), "a".to_string()), Err(ShipmentError::InvalidMetadata));
}

#[test]
fn deposit_by_creator_match_reinitializes_record() {
    let meta = metadata_bytes(key(6), Some(key(8)), Some(vec![key(5)]));
    let mut ctx = deposit_ctx(user(3, false, false, 2), held(3, 6, 0, false), meta);
    assert_eq!(deposit_nft(&mut ctx, key(5), "fresh".to_string()), Ok(()));
    assert_eq!(ctx.deposit_state.status, 1);
    assert_eq!(ctx.deposit_state.created, 123);
    assert_eq!(ctx.deposit_state.user, "fresh");
    assert_eq!(ctx.user_pool.deposit_count, 3);
    assert_eq!(ctx.global_pool.total_deposit_count, 5);
}

fn withdraw_ctx(payer: u8, payer_pool: UserPool, deposit_state: NftDeposit) -> WithdrawOwner {
    WithdrawOwner {
        payer: key(payer),
        user: key(3),
        global_pool: global(1),
        payer_pool,
        user_pool: user(3, false, false, 1),
        token_mint: key(6),
        deposit_state,
    }
}

#[test]
fn owner_withdrawal_by_stranger_refused() {
    let mut ctx = withdraw_ctx(8, user(8, false, true, 0), held(3, 6, 1, false));
    assert_eq!(withdraw_owner(&mut ctx), Err(ShipmentError::InvalidAdmin));
    assert_eq!(ctx.deposit_state.status, 1);
}

#[test]
fn owner_withdrawal_by_admin_succeeds() {
    let mut ctx = withdraw_ctx(8, user(8, true, false, 0), held(3, 6, 5, false));
    assert_eq!(withdraw_owner(&mut ctx), Ok(()));
    assert_eq!(ctx.deposit_state.status, 0);
    assert_eq!(ctx.user_pool.deposit_count, 0);
    assert_eq!(ctx.global_pool.total_deposit_count, 0);
}

#[test]
fn withdrawal_checks_owner_mint_lock_and_status() {
    let owner_pool = user(3, false, false, 1);
    assert_eq!(
        validate_release(&key(3), &user(4, false, false, 1), &key(6), &held(3, 6, 1, false)),
        Err(ShipmentError::InvalidOwner)
    );
    assert_eq!(
        validate_release(&key(3), &owner_pool, &key(6), &held(4, 6, 1, false)),
        Err(ShipmentError::InvalidOwner)
    );
    assert_eq!(
        validate_release(&key(3), &owner_pool, &key(7), &held(3, 6, 1, false)),
        Err(ShipmentError::InvalidNFTAddress)
    );
    assert_eq!(
        validate_release(&key(3), &owner_pool, &key(6), &held(3, 6, 1, true)),
        Err(ShipmentError::DisabledWithdrawal)
    );
    assert_eq!(
        validate_release(&key(3), &owner_pool, &key(6), &held(3, 6, 0, false)),
        Err(ShipmentError::NotDeposited)
    );
    assert_eq!(validate_release(&key(3), &owner_pool, &key(6), &held(3, 6, 9, false)), Ok(()));
}

#[test]
fn foreign_record_refused_to_user_without_deposits() {
    let mut ctx = withdraw_ctx(4, user(4, false, false, 0), held(3, 6, 1, false));
    ctx.user = key(4);
    ctx.user_pool = user(4, false, false, 0);
    assert_eq!(withdraw_owner(&mut ctx), Err(ShipmentError::InvalidOwner));
    assert_eq!(ctx.user_pool.deposit_count, 0);
}

#[test]
fn empty_record_is_not_withdrawn() {
    let mut ctx = withdraw_ctx(3, user(3, false, false, 1), held(3, 6, 0, false));
    assert_eq!(withdraw_owner(&mut ctx), Err(ShipmentError::NotDeposited));
    assert_eq!(ctx.user_pool.deposit_count, 1);
}

fn treasury_ctx(admin_pool: UserPool, admin: u8, deposit_state: NftDeposit) -> WithdrawTreasury {
    WithdrawTreasury {
        admin: key(admin),
        user: key(3),
        global_pool: global(2),
        admin_pool,
        user_pool: user(3, false, false, 2),
        token_mint: key(6),
        deposit_state,
    }
}

#[test]
fn treasury_withdrawal_needs_admin() {
    let mut ctx = treasury_ctx(user(3, false, true, 2), 3, held(3, 6, 1, false));
    assert_eq!(withdraw_treasury(&mut ctx), Err(ShipmentError::InvalidAdmin));
    assert_eq!(ctx.global_pool.total_deposit_count, 2);
}

#[test]
fn treasury_withdrawal_by_super_admin() {
    let mut ctx = treasury_ctx(user(1, false, false, 0), 1, held(3, 6, 1, false));
    assert_eq!(withdraw_treasury(&mut ctx), Ok(()));
    assert_eq!(ctx.deposit_state.status, 0);
    assert_eq!(ctx.user_pool.deposit_count, 1);
    assert_eq!(ctx.global_pool.total_deposit_count, 1);
}

#[test]
fn locked_record_refused_even_to_super_admin() {
    let mut ctx = treasury_ctx(user(1, true, true, 0), 1, held(3, 6, 1, true));
    assert_eq!(withdraw_treasury(&mut ctx), Err(ShipmentError::DisabledWithdrawal));
    let mut ctx = withdraw_ctx(1, user(1, true, true, 0), held(3, 6, 1, true));
    assert_eq!(withdraw_owner(&mut ctx), Err(ShipmentError::DisabledWithdrawal));
}

fn finalize_ctx(updater_pool: UserPool, deposit_state: NftDeposit) -> FinalizeDeposit {
    FinalizeDeposit {
        updater: key(8),
        user: key(3),
        global_pool: global(3),
        updater_pool,
        user_pool: user(3, false, false, 2),
        token_mint: key(6),
        deposit_state,
    }
}

#[test]
fn finalize_by_updater_closes_record() {
    let mut ctx = finalize_ctx(user(8, false, true, 0), held(3, 6, 4, true));
    assert_eq!(finalize_deposit(&mut ctx), Ok(()));
    assert_eq!(ctx.deposit_state.status, 0);
    assert!(!ctx.deposit_state.locked);
    assert_eq!(ctx.user_pool.deposit_count, 1);
    assert_eq!(ctx.global_pool.total_deposit_count, 2);
}

#[test]
fn finalize_refusals() {
    let mut ctx = finalize_ctx(user(8, false, false, 0), held(3, 6, 4, false));
    assert_eq!(finalize_deposit(&mut ctx), Err(ShipmentError::InvalidUpdater));
    let mut ctx = finalize_ctx(user(8, false, true, 0), held(3, 6, 0, false));
    assert_eq!(finalize_deposit(&mut ctx), Err(ShipmentError::NotDeposited));
    let mut ctx = finalize_ctx(user(8, false, true, 0), held(3, 6, 1, false));
    ctx.user_pool = user(4, false, false, 2);
    assert_eq!(finalize_deposit(&mut ctx), Err(ShipmentError::InvalidOwner));
    let mut ctx = finalize_ctx(user(8, false, true, 0), held(4, 6, 1, false));
    assert_eq!(finalize_deposit(&mut ctx), Err(ShipmentError::InvalidOwner));
    assert_eq!(ctx.user_pool.deposit_count, 2);
    // A withdrawn record keeps its former owner; naming another user still finds it empty.
    let mut ctx = finalize_ctx(user(8, false, true, 0), held(4, 6, 0, false));
    assert_eq!(finalize_deposit(&mut ctx), Err(ShipmentError::NotDeposited));
    assert_eq!(ctx.global_pool.total_deposit_count, 3);
    assert_eq!(ctx.global_pool.total_deposit_count, 3);
}

#[test]
fn update_sets_only_given_fields() {
    let mut ctx = UpdateDeposit {
        updater: key(8),
        global_pool: global(1),
        updater_pool: user(8, false, true, 0),
        token_mint: key(6),
        deposit_state: held(3, 6, 1, false),
    };
    assert_eq!(update_deposit(&mut ctx, Some(7), None), Ok(()));
    assert_eq!(ctx.deposit_state.status, 7);
    assert!(!ctx.deposit_state.locked);
    assert_eq!(update_deposit(&mut ctx, None, Some(true)), Ok(()));
    assert_eq!(ctx.deposit_state.status, 7);
    assert!(ctx.deposit_state.locked);
}

#[test]
fn update_refusals() {
    let mut ctx = UpdateDeposit {
        updater: key(8),
        global_pool: global(1),
        updater_pool: user(8, false, false, 0),
        token_mint: key(6),
        deposit_state: held(3, 6, 1, false),
    };
    assert_eq!(update_deposit(&mut ctx, Some(2), None), Err(ShipmentError::InvalidUpdater));
    ctx.updater_pool = user(8, false, true, 0);
    ctx.deposit_state = held(3, 6, 0, false);
    assert_eq!(update_deposit(&mut ctx, Some(2), None), Err(ShipmentError::NotDeposited));
    assert_eq!(ctx.deposit_state.status, 0);
}

#[test]
fn only_admins_administer() {
    let outsider = user(8, false, true, 0);
    let mut t = ChangeTreasury { admin: key(8), global_pool: global(0), admin_pool: outsider };
    assert_eq!(change_treasury(&mut t, key(9)), Err(ShipmentError::InvalidAdmin));
    assert_eq!(t.global_pool.treasury, key(2));
    let mut r = RegisterCollection {
        admin: key(8),
        global_pool: global(0),
        admin_pool: outsider,
        collection_pool: CollectionPool { address: key(0), allowed: false },
    };
    assert_eq!(register_collection(&mut r, key(5)), Err(ShipmentError::InvalidAdmin));
    assert!(!r.collection_pool.allowed);
    let mut v = RevokeCollection {
        admin: key(8),
        global_pool: global(0),
        admin_pool: outsider,
        collection_pool: CollectionPool { address: key(5), allowed: true },
    };
    assert_eq!(revoke_collection(&mut v, key(5)), Err(ShipmentError::InvalidAdmin));
    assert!(v.collection_pool.allowed);
    let mut w = treasury_ctx(outsider, 8, held(3, 6, 1, false));
    assert_eq!(withdraw_treasury(&mut w), Err(ShipmentError::InvalidAdmin));
}

#[test]
fn admin_changes_treasury_and_revokes_collection() {
    let admin = user(8, true, false, 0);
    let mut t = ChangeTreasury { admin: key(8), global_pool: global(0), admin_pool: admin };
    assert_eq!(change_treasury(&mut t, key(9)), Ok(()));
    assert_eq!(t.global_pool.treasury, key(9));
    assert_eq!(t.global_pool.super_admin, key(1));
    let mut v = RevokeCollection {
        admin: key(8),
        global_pool: global(0),
        admin_pool: admin,
        collection_pool: CollectionPool { address: key(5), allowed: true },
    };
    assert_eq!(revoke_collection(&mut v, key(5)), Ok(()));
    assert!(!v.collection_pool.allowed);
    assert_eq!(v.collection_pool.address, key(5));
}

#[test]
fn super_admin_transfer() {
    let mut ctx = TransferSuperAdmin { admin: key(8), global_pool: global(0) };
    assert_eq!(transfer_super_admin(&mut ctx, key(8)), Err(ShipmentError::InvalidAdmin));
    assert_eq!(ctx.global_pool.super_admin, key(1));
    let mut ctx = TransferSuperAdmin { admin: key(1), global_pool: global(0) };
    assert_eq!(transfer_super_admin(&mut ctx, key(8)), Ok(()));
    assert_eq!(ctx.global_pool.super_admin, key(8));
    assert_eq!(ctx.global_pool.treasury, key(2));
}

#[test]
fn error_messages() {
    assert_eq!(ShipmentError::DisabledWithdrawal.message(), "Withdrawal is disabled");
    assert_eq!(ShipmentError::InvalidAdmin.message(), "Admin address dismatch");
}
