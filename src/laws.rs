use vstd::prelude::*;

use crate::error::ShipmentError;
use crate::instructions::change_role::ChangeRole;
use crate::instructions::change_treasury::ChangeTreasury;
use crate::instructions::deposit_nft::DepositNft;
use crate::instructions::finalize_deposit::FinalizeDeposit;
use crate::instructions::init_user::InitUser;
use crate::instructions::transfer_super_admin::TransferSuperAdmin;
use crate::instructions::register_collection::{RegisterCollection, RevokeCollection};
use crate::instructions::update_deposit::UpdateDeposit;
use crate::instructions::withdraw_owner::WithdrawOwner;
use crate::instructions::withdraw_treasury::WithdrawTreasury;
use crate::state::{GlobalPool, NftDeposit, Pubkey, UserPool};
use crate::validations::{is_admin, is_updater};

verus! {

/// The sum of the deposit counters of `users`.
pub open spec fn deposits_held(users: Seq<UserPool>) -> int
    decreases users.len(),
{
    if users.len() == 0 {
        0
    } else {
        deposits_held(users.drop_last()) + users.last().deposit_count
    }
}

/// Whether `d` holds a token owned by `owner`, as a count.
pub open spec fn held_by(d: NftDeposit, owner: Pubkey) -> int {
    if d.owner@ == owner@ && d.status != 0 {
        1
    } else {
        0
    }
}

/// How many of the custody records `deposits` hold a token owned by `owner`.
pub open spec fn owned_held(deposits: Seq<NftDeposit>, owner: Pubkey) -> int
    decreases deposits.len(),
{
    if deposits.len() == 0 {
        0
    } else {
        owned_held(deposits.drop_last(), owner) + held_by(deposits.last(), owner)
    }
}

/// The global counter equals the sum of the user counters.
pub open spec fn balanced(global_pool: GlobalPool, users: Seq<UserPool>) -> bool {
    global_pool.total_deposit_count == deposits_held(users)
}

/// The custody record of `mint` holds a token exactly when the program's custody
/// holdings, given as the set of mints they hold, contain `mint`.
pub open spec fn custody_matches(
    deposit_state: NftDeposit,
    mint: Pubkey,
    custody: Set<Seq<u8>>,
) -> bool {
    (deposit_state.status != 0) == custody.contains(mint@)
}

/// The global record that `initialize` creates is balanced against an empty registry.
pub proof fn lemma_initialize_balanced(caller: Pubkey, treasury: Pubkey)
    ensures
        balanced(
            GlobalPool { super_admin: caller, treasury, total_deposit_count: 0 },
            Seq::<UserPool>::empty(),
        ),
{
}

/// No user counter exceeds the sum of all of them.
pub proof fn lemma_deposits_held_covers(users: Seq<UserPool>, i: int)
    requires
        0 <= i < users.len(),
    ensures
        deposits_held(users) >= users[i].deposit_count,
    decreases users.len(),
{
    if i < users.len() - 1 {
        lemma_deposits_held_covers(users.drop_last(), i);
        assert(users.drop_last()[i] == users[i]);
    } else {
        lemma_deposits_held_nonneg(users.drop_last());
    }
}

/// A sum of counters is never negative.
pub proof fn lemma_deposits_held_nonneg(users: Seq<UserPool>)
    ensures
        deposits_held(users) >= 0,
    decreases users.len(),
{
    if users.len() > 0 {
        lemma_deposits_held_nonneg(users.drop_last());
    }
}

/// A held record of `owner` is counted among the records it holds.
pub proof fn lemma_owned_held_counts(deposits: Seq<NftDeposit>, k: int, owner: Pubkey)
    requires
        0 <= k < deposits.len(),
        deposits[k].owner@ == owner@,
        deposits[k].status != 0,
    ensures
        owned_held(deposits, owner) >= 1,
    decreases deposits.len(),
{
    if k < deposits.len() - 1 {
        lemma_owned_held_counts(deposits.drop_last(), k, owner);
        assert(deposits.drop_last()[k] == deposits[k]);
    }
    lemma_owned_held_nonneg(deposits.drop_last(), owner);
}

/// A count of records is never negative.
pub proof fn lemma_owned_held_nonneg(deposits: Seq<NftDeposit>, owner: Pubkey)
    ensures
        owned_held(deposits, owner) >= 0,
    decreases deposits.len(),
{
    if deposits.len() > 0 {
        lemma_owned_held_nonneg(deposits.drop_last(), owner);
    }
}

/// Under the invariants of the record store (the global counter is the sum of the
/// user counters, and each user counter is the number of held records of that user),
/// a held record and its owner's user record leave both counters positive: a
/// withdrawal or finalization of that record cannot drive a counter below zero.
pub proof fn lemma_held_record_counted(
    global_pool: GlobalPool,
    users: Seq<UserPool>,
    i: int,
    deposits: Seq<NftDeposit>,
    k: int,
)
    requires
        balanced(global_pool, users),
        0 <= i < users.len(),
        0 <= k < deposits.len(),
        users[i].deposit_count == owned_held(deposits, users[i].address),
        deposits[k].owner@ == users[i].address@,
        deposits[k].status != 0,
    ensures
        users[i].deposit_count > 0,
        global_pool.total_deposit_count > 0,
{
    lemma_owned_held_counts(deposits, k, users[i].address);
    lemma_deposits_held_covers(users, i);
}

/// The invariants of the record store, over its global record, its user records and
/// its custody records: the global counter is the sum of the user counters, each
/// identity has one user record, and each user counter is the number of held custody
/// records owned by that user.
pub open spec fn store_wf(
    global_pool: GlobalPool,
    users: Seq<UserPool>,
    deposits: Seq<NftDeposit>,
) -> bool {
    &&& balanced(global_pool, users)
    &&& forall|a: int, b: int|
        0 <= a < users.len() && 0 <= b < users.len() && a != b ==> #[trigger] users[a].address@
            != #[trigger] users[b].address@
    &&& forall|j: int|
        0 <= j < users.len() ==> #[trigger] users[j].deposit_count == owned_held(
            deposits,
            users[j].address,
        )
}

/// Replacing one custody record changes each owner's count by the change of that
/// record's contribution.
pub proof fn lemma_owned_held_update(
    deposits: Seq<NftDeposit>,
    k: int,
    d: NftDeposit,
    owner: Pubkey,
)
    requires
        0 <= k < deposits.len(),
    ensures
        owned_held(deposits.update(k, d), owner) == owned_held(deposits, owner) - held_by(
            deposits[k],
            owner,
        ) + held_by(d, owner),
    decreases deposits.len(),
{
    let updated = deposits.update(k, d);
    if k == deposits.len() - 1 {
        assert(updated.drop_last() =~= deposits.drop_last());
    } else {
        lemma_owned_held_update(deposits.drop_last(), k, d, owner);
        assert(updated.drop_last() =~= deposits.drop_last().update(k, d));
    }
}

/// One committed change of custody keeps the store's invariants: user record `i`
/// and custody record `k` are replaced, the custody record's owner is that user,
/// and the user counter and the global counter move by the change in whether the
/// record holds a token.
proof fn lemma_custody_change_keeps_store(
    global_pool: GlobalPool,
    users: Seq<UserPool>,
    deposits: Seq<NftDeposit>,
    i: int,
    k: int,
    new_global: GlobalPool,
    new_user: UserPool,
    new_deposit: NftDeposit,
)
    requires
        store_wf(global_pool, users, deposits),
        0 <= i < users.len(),
        0 <= k < deposits.len(),
        new_user.address == users[i].address,
        deposits[k].owner@ == users[i].address@ || deposits[k].status == 0,
        new_deposit.owner@ == users[i].address@ || new_deposit.status == 0,
        new_user.deposit_count - users[i].deposit_count == held_by(new_deposit, users[i].address)
            - held_by(deposits[k], users[i].address),
        new_global.total_deposit_count - global_pool.total_deposit_count
            == new_user.deposit_count - users[i].deposit_count,
    ensures
        store_wf(new_global, users.update(i, new_user), deposits.update(k, new_deposit)),
{
    let nu = users.update(i, new_user);
    let nd = deposits.update(k, new_deposit);
    lemma_deposits_held_update(users, i, new_user);
    assert forall|j: int| 0 <= j < nu.len() implies #[trigger] nu[j].deposit_count == owned_held(
        nd,
        nu[j].address,
    ) by {
        lemma_owned_held_update(deposits, k, new_deposit, users[j].address);
        if j != i {
            assert(users[j].address@ != users[i].address@);
        }
    }
    assert forall|a: int, b: int|
        0 <= a < nu.len() && 0 <= b < nu.len() && a != b implies #[trigger] nu[a].address@
        != #[trigger] nu[b].address@ by {
        assert(users[a].address@ != users[b].address@);
    }
}

/// A committed deposit keeps the store's invariants.
pub proof fn lemma_deposit_keeps_store(
    global_pool: GlobalPool,
    users: Seq<UserPool>,
    deposits: Seq<NftDeposit>,
    i: int,
    k: int,
    ctx: DepositNft,
    collection: Pubkey,
    user: String,
)
    requires
        store_wf(global_pool, users, deposits),
        0 <= i < users.len(),
        0 <= k < deposits.len(),
        ctx.global_pool == global_pool,
        ctx.user_pool == users[i],
        ctx.deposit_state == deposits[k],
        ctx.user_pool.deposit_count < u64::MAX,
        ctx.global_pool.total_deposit_count < u64::MAX,
        ctx.outcome(collection) is Ok,
    ensures
        store_wf(
            ctx.after(user).global_pool,
            users.update(i, ctx.after(user).user_pool),
            deposits.update(k, ctx.after(user).deposit_state),
        ),
{
    let a = ctx.after(user);
    lemma_custody_change_keeps_store(
        global_pool,
        users,
        deposits,
        i,
        k,
        a.global_pool,
        a.user_pool,
        a.deposit_state,
    );
}

/// A committed withdrawal to the owner keeps the store's invariants; the counters it
/// decrements are positive whenever the invariants hold.
pub proof fn lemma_withdraw_owner_keeps_store(
    global_pool: GlobalPool,
    users: Seq<UserPool>,
    deposits: Seq<NftDeposit>,
    i: int,
    k: int,
    ctx: WithdrawOwner,
)
    requires
        store_wf(global_pool, users, deposits),
        0 <= i < users.len(),
        0 <= k < deposits.len(),
        ctx.global_pool == global_pool,
        ctx.user_pool == users[i],
        ctx.deposit_state == deposits[k],
        ctx.outcome() is Ok,
    ensures
        ctx.user_pool.deposit_count > 0,
        ctx.global_pool.total_deposit_count > 0,
        store_wf(
            ctx.after().global_pool,
            users.update(i, ctx.after().user_pool),
            deposits.update(k, ctx.after().deposit_state),
        ),
{
    lemma_held_record_counted(global_pool, users, i, deposits, k);
    let a = ctx.after();
    lemma_custody_change_keeps_store(
        global_pool,
        users,
        deposits,
        i,
        k,
        a.global_pool,
        a.user_pool,
        a.deposit_state,
    );
}

/// A committed withdrawal to the treasury keeps the store's invariants; the counters
/// it decrements are positive whenever the invariants hold.
pub proof fn lemma_withdraw_treasury_keeps_store(
    global_pool: GlobalPool,
    users: Seq<UserPool>,
    deposits: Seq<NftDeposit>,
    i: int,
    k: int,
    ctx: WithdrawTreasury,
)
    requires
        store_wf(global_pool, users, deposits),
        0 <= i < users.len(),
        0 <= k < deposits.len(),
        ctx.global_pool == global_pool,
        ctx.user_pool == users[i],
        ctx.deposit_state == deposits[k],
        ctx.outcome() is Ok,
    ensures
        ctx.user_pool.deposit_count > 0,
        ctx.global_pool.total_deposit_count > 0,
        store_wf(
            ctx.after().global_pool,
            users.update(i, ctx.after().user_pool),
            deposits.update(k, ctx.after().deposit_state),
        ),
{
    lemma_held_record_counted(global_pool, users, i, deposits, k);
    let a = ctx.after();
    lemma_custody_change_keeps_store(
        global_pool,
        users,
        deposits,
        i,
        k,
        a.global_pool,
        a.user_pool,
        a.deposit_state,
    );
}

/// A committed finalization keeps the store's invariants; the counters it decrements
/// are positive whenever the invariants hold.
pub proof fn lemma_finalize_keeps_store(
    global_pool: GlobalPool,
    users: Seq<UserPool>,
    deposits: Seq<NftDeposit>,
    i: int,
    k: int,
    ctx: FinalizeDeposit,
)
    requires
        store_wf(global_pool, users, deposits),
        0 <= i < users.len(),
        0 <= k < deposits.len(),
        ctx.global_pool == global_pool,
        ctx.user_pool == users[i],
        ctx.deposit_state == deposits[k],
        ctx.outcome() is Ok,
    ensures
        ctx.user_pool.deposit_count > 0,
        ctx.global_pool.total_deposit_count > 0,
        store_wf(
            ctx.after().global_pool,
            users.update(i, ctx.after().user_pool),
            deposits.update(k, ctx.after().deposit_state),
        ),
{
    lemma_held_record_counted(global_pool, users, i, deposits, k);
    let a = ctx.after();
    lemma_custody_change_keeps_store(
        global_pool,
        users,
        deposits,
        i,
        k,
        a.global_pool,
        a.user_pool,
        a.deposit_state,
    );
}

/// A committed update, which sets no zero status, keeps the store's invariants.
pub proof fn lemma_update_keeps_store(
    global_pool: GlobalPool,
    users: Seq<UserPool>,
    deposits: Seq<NftDeposit>,
    k: int,
    ctx: UpdateDeposit,
    status: Option<u8>,
    locked: Option<bool>,
)
    requires
        store_wf(global_pool, users, deposits),
        0 <= k < deposits.len(),
        ctx.deposit_state == deposits[k],
        status != Some(0u8),
        ctx.outcome() is Ok,
    ensures
        store_wf(global_pool, users, deposits.update(k, ctx.after(status, locked).deposit_state)),
{
    let nd = deposits.update(k, ctx.after(status, locked).deposit_state);
    assert forall|j: int| 0 <= j < users.len() implies #[trigger] users[j].deposit_count
        == owned_held(nd, users[j].address) by {
        lemma_owned_held_update(deposits, k, ctx.after(status, locked).deposit_state, users[j].address);
    }
}

/// A committed role change keeps the store's invariants.
pub proof fn lemma_change_role_keeps_store(
    global_pool: GlobalPool,
    users: Seq<UserPool>,
    deposits: Seq<NftDeposit>,
    i: int,
    ctx: ChangeRole,
    admin: Option<bool>,
    updater: Option<bool>,
)
    requires
        store_wf(global_pool, users, deposits),
        0 <= i < users.len(),
        ctx.global_pool == global_pool,
        ctx.user_pool == users[i],
        ctx.outcome() is Ok,
    ensures
        store_wf(
            ctx.after(admin, updater).global_pool,
            users.update(i, ctx.after(admin, updater).user_pool),
            deposits,
        ),
{
    let nu = users.update(i, ctx.after(admin, updater).user_pool);
    lemma_deposits_held_update(users, i, ctx.after(admin, updater).user_pool);
    assert forall|a: int, b: int|
        0 <= a < nu.len() && 0 <= b < nu.len() && a != b implies #[trigger] nu[a].address@
        != #[trigger] nu[b].address@ by {
        assert(users[a].address@ != users[b].address@);
    }
    assert forall|j: int| 0 <= j < nu.len() implies #[trigger] nu[j].deposit_count
        == owned_held(deposits, nu[j].address) by {
        assert(users[j].deposit_count == owned_held(deposits, users[j].address));
    }
}

/// Replacing one user record changes the sum by the change of that record's counter.
pub proof fn lemma_deposits_held_update(users: Seq<UserPool>, i: int, u: UserPool)
    requires
        0 <= i < users.len(),
    ensures
        deposits_held(users.update(i, u)) == deposits_held(users) - users[i].deposit_count
            + u.deposit_count,
    decreases users.len(),
{
    let updated = users.update(i, u);
    if i == users.len() - 1 {
        assert(updated.drop_last() =~= users.drop_last());
    } else {
        lemma_deposits_held_update(users.drop_last(), i, u);
        assert(updated.drop_last() =~= users.drop_last().update(i, u));
    }
}

/// A committed deposit keeps the counters balanced, and its record marks the token
/// that entered custody.
pub proof fn lemma_deposit_keeps_invariants(
    users: Seq<UserPool>,
    i: int,
    custody: Set<Seq<u8>>,
    ctx: DepositNft,
    collection: Pubkey,
    user: String,
)
    requires
        0 <= i < users.len(),
        users[i] == ctx.user_pool,
        balanced(ctx.global_pool, users),
        custody_matches(ctx.deposit_state, ctx.token_mint, custody),
        ctx.user_pool.deposit_count < u64::MAX,
        ctx.global_pool.total_deposit_count < u64::MAX,
        ctx.outcome(collection) is Ok,
    ensures
        balanced(ctx.after(user).global_pool, users.update(i, ctx.after(user).user_pool)),
        custody_matches(ctx.after(user).deposit_state, ctx.token_mint, custody.insert(ctx.token_mint@)),
{
    lemma_deposits_held_update(users, i, ctx.after(user).user_pool);
}

/// A committed withdrawal to the owner keeps the counters balanced, and its record
/// marks the token that left custody.
pub proof fn lemma_withdraw_owner_keeps_invariants(
    users: Seq<UserPool>,
    i: int,
    custody: Set<Seq<u8>>,
    ctx: WithdrawOwner,
)
    requires
        0 <= i < users.len(),
        users[i] == ctx.user_pool,
        balanced(ctx.global_pool, users),
        custody_matches(ctx.deposit_state, ctx.token_mint, custody),
        ctx.outcome() is Ok,
        ctx.user_pool.deposit_count > 0,
        ctx.global_pool.total_deposit_count > 0,
    ensures
        balanced(ctx.after().global_pool, users.update(i, ctx.after().user_pool)),
        custody_matches(ctx.after().deposit_state, ctx.token_mint, custody.remove(ctx.token_mint@)),
{
    lemma_deposits_held_update(users, i, ctx.after().user_pool);
}

/// A committed withdrawal to the treasury keeps the counters balanced, and its record
/// marks the token that left custody.
pub proof fn lemma_withdraw_treasury_keeps_invariants(
    users: Seq<UserPool>,
    i: int,
    custody: Set<Seq<u8>>,
    ctx: WithdrawTreasury,
)
    requires
        0 <= i < users.len(),
        users[i] == ctx.user_pool,
        balanced(ctx.global_pool, users),
        custody_matches(ctx.deposit_state, ctx.token_mint, custody),
        ctx.outcome() is Ok,
        ctx.user_pool.deposit_count > 0,
        ctx.global_pool.total_deposit_count > 0,
    ensures
        balanced(ctx.after().global_pool, users.update(i, ctx.after().user_pool)),
        custody_matches(ctx.after().deposit_state, ctx.token_mint, custody.remove(ctx.token_mint@)),
{
    lemma_deposits_held_update(users, i, ctx.after().user_pool);
}

/// A committed finalization keeps the counters balanced, and its record marks the
/// token that was burnt out of custody.
pub proof fn lemma_finalize_keeps_invariants(
    users: Seq<UserPool>,
    i: int,
    custody: Set<Seq<u8>>,
    ctx: FinalizeDeposit,
)
    requires
        0 <= i < users.len(),
        users[i] == ctx.user_pool,
        balanced(ctx.global_pool, users),
        custody_matches(ctx.deposit_state, ctx.token_mint, custody),
        ctx.outcome() is Ok,
        ctx.user_pool.deposit_count > 0,
        ctx.global_pool.total_deposit_count > 0,
    ensures
        balanced(ctx.after().global_pool, users.update(i, ctx.after().user_pool)),
        custody_matches(ctx.after().deposit_state, ctx.token_mint, custody.remove(ctx.token_mint@)),
{
    lemma_deposits_held_update(users, i, ctx.after().user_pool);
}

/// A committed update that sets no zero status keeps the record marking exactly the
/// tokens in custody; it touches no counter.
pub proof fn lemma_update_keeps_invariants(
    custody: Set<Seq<u8>>,
    ctx: UpdateDeposit,
    status: Option<u8>,
    locked: Option<bool>,
)
    requires
        custody_matches(ctx.deposit_state, ctx.token_mint, custody),
        status != Some(0u8),
        ctx.outcome() is Ok,
    ensures
        custody_matches(ctx.after(status, locked).deposit_state, ctx.token_mint, custody),
        ctx.after(status, locked).global_pool == ctx.global_pool,
{
}

/// A committed role change keeps the counters balanced.
pub proof fn lemma_change_role_keeps_balance(
    users: Seq<UserPool>,
    i: int,
    ctx: ChangeRole,
    admin: Option<bool>,
    updater: Option<bool>,
)
    requires
        0 <= i < users.len(),
        users[i] == ctx.user_pool,
        balanced(ctx.global_pool, users),
        ctx.outcome() is Ok,
    ensures
        balanced(ctx.after(admin, updater).global_pool, users.update(i, ctx.after(admin, updater).user_pool)),
{
    lemma_deposits_held_update(users, i, ctx.after(admin, updater).user_pool);
}

/// Registering an identity keeps the counters balanced.
pub proof fn lemma_init_user_keeps_balance(users: Seq<UserPool>, global_pool: GlobalPool, ctx: InitUser)
    requires
        balanced(global_pool, users),
    ensures
        balanced(global_pool, users.push(ctx.after().user_pool)),
{
    assert(users.push(ctx.after().user_pool).drop_last() =~= users);
}

/// Handing on the super admin role or changing the treasury keeps the counters
/// balanced.
pub proof fn lemma_global_changes_keep_balance(
    users: Seq<UserPool>,
    transfer_ctx: TransferSuperAdmin,
    new_admin: Pubkey,
    treasury_ctx: ChangeTreasury,
    new_treasury: Pubkey,
)
    requires
        balanced(transfer_ctx.global_pool, users),
        balanced(treasury_ctx.global_pool, users),
    ensures
        balanced(transfer_ctx.after(new_admin).global_pool, users),
        balanced(treasury_ctx.after(new_treasury).global_pool, users),
{
}

/// Every committed release charges the record's owner: the user record whose counter
/// shrinks belongs to the identity that owns the emptied custody record, and a
/// deposit credits the depositor who becomes its owner.
pub proof fn lemma_counters_follow_owner(
    deposit_ctx: DepositNft,
    collection: Pubkey,
    user: String,
    owner_ctx: WithdrawOwner,
    treasury_ctx: WithdrawTreasury,
    finalize_ctx: FinalizeDeposit,
)
    ensures
        deposit_ctx.outcome(collection) is Ok ==> deposit_ctx.after(user).deposit_state.owner@
            == deposit_ctx.user_pool.address@,
        owner_ctx.outcome() is Ok ==> owner_ctx.deposit_state.owner@
            == owner_ctx.user_pool.address@,
        treasury_ctx.outcome() is Ok ==> treasury_ctx.deposit_state.owner@
            == treasury_ctx.user_pool.address@,
        finalize_ctx.outcome() is Ok ==> finalize_ctx.deposit_state.owner@
            == finalize_ctx.user_pool.address@,
{
}

/// A token already in custody cannot be deposited again: the deposit fails, and with
/// `AlreadyDeposited` once the depositor owns the user record.
pub proof fn lemma_redeposit_refused(ctx: DepositNft, collection: Pubkey)
    requires
        ctx.deposit_state.status != 0,
    ensures
        ctx.outcome(collection) is Err,
        ctx.user_pool.address@ == ctx.user@ ==> ctx.outcome(collection) == Err::<
            (),
            ShipmentError,
        >(ShipmentError::AlreadyDeposited),
{
}

/// An empty custody record cannot be withdrawn or finalized; once the caller is
/// admitted and the records match, the failure is `NotDeposited`.
pub proof fn lemma_empty_record_not_released(
    owner_ctx: WithdrawOwner,
    treasury_ctx: WithdrawTreasury,
    finalize_ctx: FinalizeDeposit,
)
    requires
        owner_ctx.deposit_state.status == 0,
        treasury_ctx.deposit_state.status == 0,
        finalize_ctx.deposit_state.status == 0,
    ensures
        owner_ctx.outcome() is Err,
        treasury_ctx.outcome() is Err,
        finalize_ctx.outcome() is Err,
        ((owner_ctx.payer@ == owner_ctx.user@ || is_admin(
            owner_ctx.global_pool,
            owner_ctx.payer_pool,
            owner_ctx.payer,
        )) && owner_ctx.user_pool.address@ == owner_ctx.user@ && owner_ctx.deposit_state.owner@
            == owner_ctx.user@ && owner_ctx.deposit_state.mint@ == owner_ctx.token_mint@
            && !owner_ctx.deposit_state.locked) ==> owner_ctx.outcome() == Err::<
            (),
            ShipmentError,
        >(ShipmentError::NotDeposited),
        (is_admin(treasury_ctx.global_pool, treasury_ctx.admin_pool, treasury_ctx.admin)
            && treasury_ctx.user_pool.address@ == treasury_ctx.user@
            && treasury_ctx.deposit_state.owner@ == treasury_ctx.user@
            && treasury_ctx.deposit_state.mint@ == treasury_ctx.token_mint@
            && !treasury_ctx.deposit_state.locked) ==> treasury_ctx.outcome() == Err::<
            (),
            ShipmentError,
        >(ShipmentError::NotDeposited),
        (is_updater(finalize_ctx.global_pool, finalize_ctx.updater_pool, finalize_ctx.updater)
            && finalize_ctx.user_pool.address@ == finalize_ctx.user@) ==> finalize_ctx.outcome()
            == Err::<(), ShipmentError>(ShipmentError::NotDeposited),
{
}

/// A locked custody record cannot be withdrawn, whatever the caller's role; once the
/// caller is admitted and the records match, the failure is `DisabledWithdrawal`.
pub proof fn lemma_locked_record_not_withdrawn(
    owner_ctx: WithdrawOwner,
    treasury_ctx: WithdrawTreasury,
)
    requires
        owner_ctx.deposit_state.locked,
        treasury_ctx.deposit_state.locked,
    ensures
        owner_ctx.outcome() is Err,
        treasury_ctx.outcome() is Err,
        ((owner_ctx.payer@ == owner_ctx.user@ || is_admin(
            owner_ctx.global_pool,
            owner_ctx.payer_pool,
            owner_ctx.payer,
        )) && owner_ctx.user_pool.address@ == owner_ctx.user@ && owner_ctx.deposit_state.owner@
            == owner_ctx.user@ && owner_ctx.deposit_state.mint@ == owner_ctx.token_mint@)
            ==> owner_ctx.outcome() == Err::<(), ShipmentError>(ShipmentError::DisabledWithdrawal),
        (is_admin(treasury_ctx.global_pool, treasury_ctx.admin_pool, treasury_ctx.admin)
            && treasury_ctx.user_pool.address@ == treasury_ctx.user@
            && treasury_ctx.deposit_state.owner@ == treasury_ctx.user@
            && treasury_ctx.deposit_state.mint@ == treasury_ctx.token_mint@)
            ==> treasury_ctx.outcome() == Err::<(), ShipmentError>(
            ShipmentError::DisabledWithdrawal,
        ),
{
}

/// A deposit followed by the owner's withdrawal of the same token leaves the custody
/// record empty and unlocked, and both counters where they were before the deposit.
pub proof fn lemma_deposit_withdraw_round_trip(
    deposit: DepositNft,
    collection: Pubkey,
    user: String,
    withdraw: WithdrawOwner,
)
    requires
        deposit.user_pool.deposit_count < u64::MAX,
        deposit.global_pool.total_deposit_count < u64::MAX,
        deposit.outcome(collection) is Ok,
        withdraw.payer == deposit.user,
        withdraw.user == deposit.user,
        withdraw.token_mint == deposit.token_mint,
        withdraw.global_pool == deposit.after(user).global_pool,
        withdraw.user_pool == deposit.after(user).user_pool,
        withdraw.deposit_state == deposit.after(user).deposit_state,
    ensures
        withdraw.outcome() is Ok,
        withdraw.after().deposit_state.status == 0,
        !withdraw.after().deposit_state.locked,
        withdraw.after().user_pool == deposit.user_pool,
        withdraw.after().global_pool == deposit.global_pool,
{
}

/// Only an admin can change the treasury, register or revoke a collection, or send a
/// token to the treasury: a caller that is neither the super admin nor admin-flagged
/// on its own user record fails each with `InvalidAdmin`.
pub proof fn lemma_only_admins_administer(
    global_pool: GlobalPool,
    caller_pool: UserPool,
    caller: Pubkey,
    treasury_ctx: ChangeTreasury,
    register_ctx: RegisterCollection,
    revoke_ctx: RevokeCollection,
    withdraw_ctx: WithdrawTreasury,
)
    requires
        !is_admin(global_pool, caller_pool, caller),
        treasury_ctx.global_pool == global_pool && treasury_ctx.admin_pool == caller_pool
            && treasury_ctx.admin == caller,
        register_ctx.global_pool == global_pool && register_ctx.admin_pool == caller_pool
            && register_ctx.admin == caller,
        revoke_ctx.global_pool == global_pool && revoke_ctx.admin_pool == caller_pool
            && revoke_ctx.admin == caller,
        withdraw_ctx.global_pool == global_pool && withdraw_ctx.admin_pool == caller_pool
            && withdraw_ctx.admin == caller,
    ensures
        treasury_ctx.outcome() == Err::<(), ShipmentError>(ShipmentError::InvalidAdmin),
        register_ctx.outcome() == Err::<(), ShipmentError>(ShipmentError::InvalidAdmin),
        revoke_ctx.outcome() == Err::<(), ShipmentError>(ShipmentError::InvalidAdmin),
        withdraw_ctx.outcome() == Err::<(), ShipmentError>(ShipmentError::InvalidAdmin),
{
}

} // verus!
