//! The handle that demands a signature.

use crate::claim::{is_outcome, meta_of, signer_claim, signer_claim_next, unclaimed_rest};
use crate::entry::{AccountEntry, ClaimError};
use anchor_lang::solana_program::instruction::AccountMeta;
use anchor_lang::solana_program::pubkey::Pubkey;
use std::collections::BTreeSet;
use vstd::prelude::*;

verus! {

/// A handle on an account that authorized the transaction.
///
/// It can only be made from an entry whose signer flag is set, so holding
/// one is proof that the check was made.
#[derive(Debug)]
pub struct Signer<'info> {
    info: &'info AccountEntry,
}

impl<'info> View for Signer<'info> {
    type V = AccountEntry;

    /// The wrapped entry.
    closed spec fn view(&self) -> AccountEntry {
        *self.info
    }
}

impl<'info> Clone for Signer<'info> {
    /// A second handle on the same entry.
    fn clone(&self) -> (copy: Self)
        ensures
            copy@ == self@,
    {
        proof {
            use_type_invariant(self);
        }
        Signer { info: self.info }
    }
}

impl<'info> Signer<'info> {
    #[verifier::type_invariant]
    spec fn authorized(self) -> bool {
        self.info.is_signer
    }

    fn new(info: &'info AccountEntry) -> (handle: Signer<'info>)
        requires
            info.is_signer,
        ensures
            handle@ == *info,
    {
        Self { info }
    }

    /// Wraps `info` if it signed, and fails with `NotSigner` if it did not.
    #[inline(never)]
    pub fn try_from(info: &'info AccountEntry) -> (claimed: Result<Signer<'info>, ClaimError>)
        ensures
            is_outcome(claimed, signer_claim(*info)),
    {
        if !info.is_signer {
            return Err(ClaimError::NotSigner);
        }
        Ok(Signer::new(info))
    }

    /// Takes the front entry off `accounts` and claims it.
    ///
    /// Fails with `NotEnoughAccounts` on an empty list, which stays as it
    /// is. Otherwise the front entry leaves the list even when it then
    /// fails the signer check. The program's address, the instruction
    /// data, the bump table and the reallocation set belong to the shared
    /// claiming interface; they are neither read nor changed.
    #[inline(never)]
    pub fn try_accounts<B>(
        _program_id: &Pubkey,
        accounts: &mut &'info [AccountEntry],
        _ix_data: &[u8],
        _bumps: &mut B,
        _reallocs: &mut BTreeSet<Pubkey>,
    ) -> (claimed: Result<Signer<'info>, ClaimError>)
        ensures
            is_outcome(claimed, signer_claim_next(old(accounts)@)),
            final(accounts)@ == unclaimed_rest(old(accounts)@),
            *final(_bumps) == *old(_bumps),
            *final(_reallocs) == *old(_reallocs),
    {
        if accounts.is_empty() {
            return Err(ClaimError::NotEnoughAccounts);
        }
        let account = &accounts[0];
        *accounts = vstd::slice::slice_subrange(*accounts, 1, accounts.len());
        Signer::try_from(account)
    }

    /// The one metadata record of this account: writable as the entry is,
    /// and signer as `is_signer` says or, without it, as the entry is,
    /// which for a handle of this type means signer.
    pub fn to_account_metas(&self, is_signer: Option<bool>) -> (metas: Vec<AccountMeta>)
        ensures
            metas@ == seq![meta_of(self@, is_signer)],
            is_signer is None ==> metas@[0].is_signer,
    {
        proof {
            use_type_invariant(self);
        }
        let is_signer = match is_signer {
            Some(flag) => flag,
            None => self.info.is_signer,
        };
        let meta = match self.info.is_writable {
            false => AccountMeta::new_readonly(self.info.key, is_signer),
            true => AccountMeta::new(self.info.key, is_signer),
        };
        vec![meta]
    }

    /// A list that holds the wrapped entry once.
    pub fn to_account_infos(&self) -> (infos: Vec<AccountEntry>)
        ensures
            infos@ == seq![self@],
    {
        vec![*self.info]
    }

    /// The wrapped entry.
    pub fn as_ref(&self) -> (info: &'info AccountEntry)
        ensures
            *info == self@,
    {
        self.info
    }

    /// The address of the wrapped entry.
    pub fn key(&self) -> (key: Pubkey)
        ensures
            key == self@.key,
    {
        self.info.key
    }

    /// The signer flag of the wrapped entry, which is set for every handle
    /// of this type.
    pub fn is_signer(&self) -> (flag: bool)
        ensures
            flag,
            flag == self@.is_signer,
    {
        proof {
            use_type_invariant(self);
        }
        self.info.is_signer
    }

    /// The writable flag of the wrapped entry.
    pub fn is_writable(&self) -> (flag: bool)
        ensures
            flag == self@.is_writable,
    {
        self.info.is_writable
    }

    /// Called at the end of the instruction. A signer handle holds no state
    /// to write back, so this does nothing and succeeds.
    pub fn exit(&self, _program_id: &Pubkey) -> (done: Result<(), ClaimError>)
        ensures
            done is Ok,
    {
        Ok(())
    }
}

} // verus!
