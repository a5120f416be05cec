//! The handle that checks nothing, named so that every use shows it.

use crate::claim::{is_outcome, meta_of, unchecked_claim_next, unclaimed_rest};
use crate::entry::{AccountEntry, ClaimError};
use anchor_lang::solana_program::instruction::AccountMeta;
use anchor_lang::solana_program::pubkey::Pubkey;
use std::collections::BTreeSet;
use vstd::prelude::*;

verus! {

/// A handle on an account of which nothing was checked.
#[derive(Debug)]
pub struct UncheckedAccount<'info>(&'info AccountEntry);

impl<'info> View for UncheckedAccount<'info> {
    type V = AccountEntry;

    /// The wrapped entry.
    closed spec fn view(&self) -> AccountEntry {
        *self.0
    }
}

impl<'info> Clone for UncheckedAccount<'info> {
    /// A second handle on the same entry.
    fn clone(&self) -> (copy: Self)
        ensures
            copy@ == self@,
    {
        UncheckedAccount(self.0)
    }
}

impl<'info> UncheckedAccount<'info> {
    /// Wraps `acc_info`, whatever its flags.
    pub fn try_from(acc_info: &'info AccountEntry) -> (handle: Self)
        ensures
            handle@ == *acc_info,
    {
        Self(acc_info)
    }

    /// The wrapped entry.
    pub fn account_info(&self) -> (info: &'info AccountEntry)
        ensures
            *info == self@,
    {
        self.0
    }

    /// Takes the front entry off `accounts` and wraps it.
    ///
    /// Fails with `NotEnoughAccounts` on an empty list, which stays as it
    /// is, and for no other reason. The program's address, the instruction
    /// data, the bump table and the reallocation set belong to the shared
    /// claiming interface; they are neither read nor changed.
    pub fn try_accounts<B>(
        _program_id: &Pubkey,
        accounts: &mut &'info [AccountEntry],
        _ix_data: &[u8],
        _bumps: &mut B,
        _reallocs: &mut BTreeSet<Pubkey>,
    ) -> (claimed: Result<Self, ClaimError>)
        ensures
            is_outcome(claimed, unchecked_claim_next(old(accounts)@)),
            final(accounts)@ == unclaimed_rest(old(accounts)@),
            *final(_bumps) == *old(_bumps),
            *final(_reallocs) == *old(_reallocs),
    {
        if accounts.is_empty() {
            return Err(ClaimError::NotEnoughAccounts);
        }
        let account = &accounts[0];
        *accounts = vstd::slice::slice_subrange(*accounts, 1, accounts.len());
        Ok(UncheckedAccount(account))
    }

    /// The one metadata record of this account: writable as the entry is,
    /// and signer as `is_signer` says or, without it, as the entry is.
    pub fn to_account_metas(&self, is_signer: Option<bool>) -> (metas: Vec<AccountMeta>)
        ensures
            metas@ == seq![meta_of(self@, is_signer)],
    {
        let is_signer = match is_signer {
            Some(flag) => flag,
            None => self.0.is_signer,
        };
        let meta = match self.0.is_writable {
            false => AccountMeta::new_readonly(self.0.key, is_signer),
            true => AccountMeta::new(self.0.key, is_signer),
        };
        vec![meta]
    }

    /// A list that holds the wrapped entry once.
    pub fn to_account_infos(&self) -> (infos: Vec<AccountEntry>)
        ensures
            infos@ == seq![self@],
    {
        vec![*self.0]
    }

    /// The wrapped entry.
    pub fn as_ref(&self) -> (info: &'info AccountEntry)
        ensures
            *info == self@,
    {
        self.0
    }

    /// The address of the wrapped entry.
    pub fn key(&self) -> (key: Pubkey)
        ensures
            key == self@.key,
    {
        self.0.key
    }

    /// The signer flag of the wrapped entry, which may or may not be set.
    pub fn is_signer(&self) -> (flag: bool)
        ensures
            flag == self@.is_signer,
    {
        self.0.is_signer
    }

    /// The writable flag of the wrapped entry.
    pub fn is_writable(&self) -> (flag: bool)
        ensures
            flag == self@.is_writable,
    {
        self.0.is_writable
    }

    /// Called at the end of the instruction. An unchecked handle holds no
    /// state to write back, so this does nothing and succeeds.
    pub fn exit(&self, _program_id: &Pubkey) -> (done: Result<(), ClaimError>)
        ensures
            done is Ok,
    {
        Ok(())
    }
}

} // verus!
