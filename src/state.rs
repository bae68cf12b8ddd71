//! The confidential ledger state that trusted calls and getters run against:
//! account nonces and balances, a store of encoded pallet values keyed by
//! storage key, the current ceremony phase and the privileged identities.

use crate::keyed::KeyedList;
use crate::types::{AccountId, Balance, CeremonyPhaseType, Index};
use vstd::prelude::*;

verus! {

/// Nonce and native balances of one account.
#[derive(Clone, Copy, Debug, PartialEq, Eq, Structural)]
pub struct AccountInfo {
    pub nonce: Index,
    pub free: Balance,
    pub reserved: Balance,
}

/// What an account that the ledger has never seen holds.
pub open spec fn empty_account() -> AccountInfo {
    AccountInfo { nonce: 0, free: 0, reserved: 0 }
}

/// The account map of a ledger, with absent accounts read as empty.
pub open spec fn account_in(accounts: Map<Seq<u8>, AccountInfo>, who: AccountId) -> AccountInfo {
    if accounts.contains_key(who.view_bytes()) {
        accounts[who.view_bytes()]
    } else {
        empty_account()
    }
}

/// The ledger state of one shard.
pub struct StfState {
    /// Nonces and balances, by account.
    pub accounts: KeyedList<AccountInfo>,
    /// Encoded pallet values, by storage key.
    pub storage: KeyedList<Vec<u8>>,
    /// The phase of the ceremony cycle, as imported from the public chain.
    pub phase: CeremonyPhaseType,
    /// The superuser of the ledger, if one is set.
    pub sudo_key: Option<AccountId>,
    /// The one identity allowed to read confidential ceremony data and set ceremony parameters.
    pub ceremony_master: AccountId,
    /// The enclave's own account, the only one that may shield funds.
    pub enclave_signer: AccountId,
}

pub fn account_key(who: &AccountId) -> (r: Vec<u8>)
    ensures
        r@ == who.view_bytes(),
{
    let mut k: Vec<u8> = Vec::new();
    who.encode_to(&mut k);
    assert(k@ =~= who.view_bytes());
    k
}

impl StfState {
    pub open spec fn wf(&self) -> bool {
        self.accounts.wf() && self.storage.wf()
    }

    pub open spec fn accounts_view(&self) -> Map<Seq<u8>, AccountInfo> {
        self.accounts.view()
    }

    /// The encoded pallet values, by storage key.
    pub open spec fn storage_view(&self) -> Map<Seq<u8>, Seq<u8>> {
        self.storage.view().map_values(|v: Vec<u8>| v@)
    }

    pub open spec fn account(&self, who: AccountId) -> AccountInfo {
        account_in(self.accounts_view(), who)
    }

    /// Everything but the accounts is as in `other`.
    pub open spec fn same_but_accounts(&self, other: &StfState) -> bool {
        &&& self.storage_view() == other.storage_view()
        &&& self.phase == other.phase
        &&& self.sudo_key == other.sudo_key
        &&& self.ceremony_master == other.ceremony_master
        &&& self.enclave_signer == other.enclave_signer
    }

    /// An empty ledger in `phase` with the given privileged identities.
    pub fn new(
        phase: CeremonyPhaseType,
        sudo_key: Option<AccountId>,
        ceremony_master: AccountId,
        enclave_signer: AccountId,
    ) -> (r: StfState)
        ensures
            r.wf(),
            r.accounts_view() == Map::<Seq<u8>, AccountInfo>::empty(),
            r.storage_view() == Map::<Seq<u8>, Seq<u8>>::empty(),
            r.phase == phase,
            r.sudo_key == sudo_key,
            r.ceremony_master == ceremony_master,
            r.enclave_signer == enclave_signer,
    {
        let r = StfState {
            accounts: KeyedList::new(),
            storage: KeyedList::new(),
            phase,
            sudo_key,
            ceremony_master,
            enclave_signer,
        };
        assert(r.storage_view() =~= Map::<Seq<u8>, Seq<u8>>::empty());
        r
    }

    /// Nonce and balances of `who`; all zero for an unknown account.
    pub fn account_info(&self, who: &AccountId) -> (r: AccountInfo)
        requires
            self.wf(),
        ensures
            r == self.account(*who),
    {
        let k = account_key(who);
        match self.accounts.get(k.as_slice()) {
            Some(info) => *info,
            None => AccountInfo { nonce: 0, free: 0, reserved: 0 },
        }
    }

    /// The nonce that the next call of `who` must carry.
    pub fn account_nonce(&self, who: &AccountId) -> (r: Index)
        requires
            self.wf(),
        ensures
            r == self.account(*who).nonce,
    {
        self.account_info(who).nonce
    }

    /// Replaces the nonce and balances of `who`.
    pub fn set_account(&mut self, who: &AccountId, info: AccountInfo)
        requires
            old(self).wf(),
        ensures
            final(self).wf(),
            final(self).accounts_view() == old(self).accounts_view().insert(who.view_bytes(), info),
            final(self).same_but_accounts(old(self)),
    {
        let k = account_key(who);
        self.accounts.insert(k, info);
    }

    /// The encoded value stored at `key`, if any.
    pub fn storage_get(&self, key: &[u8]) -> (r: Option<Vec<u8>>)
        requires
            self.wf(),
        ensures
            r.is_none() == !self.storage_view().contains_key(key@),
            r matches Some(v) ==> v@ == self.storage_view()[key@],
    {
        match self.storage.get(key) {
            Some(v) => {
                let mut c: Vec<u8> = Vec::new();
                c.extend_from_slice(v.as_slice());
                assert(c@ =~= v@);
                Some(c)
            },
            None => None,
        }
    }

    /// Stores the encoded `value` at `key`.
    pub fn storage_set(&mut self, key: Vec<u8>, value: Vec<u8>)
        requires
            old(self).wf(),
        ensures
            final(self).wf(),
            final(self).storage_view() == old(self).storage_view().insert(key@, value@),
            final(self).accounts_view() == old(self).accounts_view(),
            final(self).phase == old(self).phase,
            final(self).sudo_key == old(self).sudo_key,
            final(self).ceremony_master == old(self).ceremony_master,
            final(self).enclave_signer == old(self).enclave_signer,
    {
        let ghost k = key@;
        let ghost v = value@;
        self.storage.insert(key, value);
        assert(self.storage_view() =~= old(self).storage_view().insert(k, v));
    }
}

} // verus!
