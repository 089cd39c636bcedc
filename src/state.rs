use vstd::prelude::*;

verus! {

/// A 32-byte public identity: a wallet, a token mint or a collection.
#[derive(Clone, Copy, Debug)]
pub struct Pubkey {
    pub bytes: [u8; 32],
}

impl Pubkey {
    /// The identity with the given bytes.
    pub fn new_from_array(bytes: [u8; 32]) -> (r: Pubkey)
        ensures
            r.bytes == bytes,
    {
        Pubkey { bytes }
    }

    /// The bytes of the identity.
    pub fn to_bytes(&self) -> (r: [u8; 32])
        ensures
            r == self.bytes,
    {
        self.bytes
    }

    /// Byte-wise comparison of two identities.
    pub fn key_eq(&self, other: &Pubkey) -> (r: bool)
        ensures
            r == (self@ == other@),
    {
        let mut i: usize = 0;
        while i < 32
            invariant
                0 <= i <= 32,
                self.bytes@.len() == 32,
                other.bytes@.len() == 32,
                forall|j: int| 0 <= j < i ==> self.bytes@[j] == other.bytes@[j],
            decreases 32 - i,
        {
            if self.bytes[i] != other.bytes[i] {
                return false;
            }
            i = i + 1;
        }
        assert(self.bytes@ =~= other.bytes@);
        true
    }
}

impl View for Pubkey {
    type V = Seq<u8>;

    open spec fn view(&self) -> Seq<u8> {
        self.bytes@
    }
}

impl PartialEq for Pubkey {
    fn eq(&self, other: &Pubkey) -> (r: bool) {
        self.key_eq(other)
    }
}

impl Eq for Pubkey {
}

impl vstd::std_specs::cmp::PartialEqSpecImpl for Pubkey {
    open spec fn obeys_eq_spec() -> bool {
        true
    }

    open spec fn eq_spec(&self, other: &Pubkey) -> bool {
        self.bytes@ == other.bytes@
    }
}

/// The singleton record of the program: who rules it, where forfeited tokens and
/// reclaimed rent go, and how many tokens are in custody.
#[derive(Clone, Copy, Debug)]
pub struct GlobalPool {
    pub super_admin: Pubkey,
    pub treasury: Pubkey,
    pub total_deposit_count: u64,
}

/// The allow-list entry of one collection.
#[derive(Clone, Copy, Debug)]
pub struct CollectionPool {
    pub address: Pubkey,
    pub allowed: bool,
}

/// The record of one registered identity: its role flags and how many of its
/// tokens are in custody.
#[derive(Clone, Copy, Debug)]
pub struct UserPool {
    pub address: Pubkey,
    pub deposit_count: u64,
    pub admin: bool,
    pub updater: bool,
}

/// The custody record of one token, keyed by its mint.
#[derive(Clone, Debug)]
pub struct NftDeposit {
    /// The wallet that deposited the token.
    pub owner: Pubkey,
    /// The token's mint.
    pub mint: Pubkey,
    /// When the token was deposited, in seconds since the Unix epoch.
    pub created: i64,
    /// Zero when no token is held; any other value is an operator-defined custody code.
    pub status: u8,
    /// While set, the token cannot be withdrawn.
    pub locked: bool,
    /// Identifier of the depositor's off-chain account.
    pub user: String,
}

impl GlobalPool {
    /// The record that `initialize` creates: the caller rules, nothing is in custody.
    pub fn new(super_admin: Pubkey, treasury: Pubkey) -> (r: GlobalPool)
        ensures
            r.super_admin == super_admin,
            r.treasury == treasury,
            r.total_deposit_count == 0,
    {
        GlobalPool { super_admin, treasury, total_deposit_count: 0 }
    }
}

impl UserPool {
    /// A fresh user record: no roles, no deposits.
    pub fn new(address: Pubkey) -> (r: UserPool)
        ensures
            r.address == address,
            r.deposit_count == 0,
            !r.admin,
            !r.updater,
    {
        UserPool { address, deposit_count: 0, admin: false, updater: false }
    }
}

impl NftDeposit {
    /// An empty custody record, as the store hands out before the first deposit.
    pub fn empty(mint: Pubkey) -> (r: NftDeposit)
        ensures
            r.mint == mint,
            r.owner@ == Seq::new(32, |_i: int| 0u8),
            r.created == 0,
            r.status == 0,
            !r.locked,
            r.user@ == Seq::<char>::empty(),
    {
        let owner = Pubkey { bytes: [0u8; 32] };
        assert(owner@ =~= Seq::new(32, |_i: int| 0u8));
        NftDeposit { owner, mint, created: 0, status: 0, locked: false, user: String::new() }
    }

    /// Puts the record back in its empty state; the other fields are kept.
    pub fn reset(&mut self)
        ensures
            final(self).status == 0,
            !final(self).locked,
            final(self).owner == old(self).owner,
            final(self).mint == old(self).mint,
            final(self).created == old(self).created,
            final(self).user == old(self).user,
    {
        self.status = 0;
        self.locked = false;
    }
}

} // verus!
