//! The claiming and metadata rules, stated over plain values.
//!
//! The handles' contracts are written in these terms: an entry list is a
//! `Seq<AccountEntry>` whose first element is the next to be claimed, and
//! a claim yields either the entry that the new handle wraps or an error.

use crate::entry::{AccountEntry, ClaimError};
use anchor_lang::solana_program::instruction::AccountMeta;
use vstd::prelude::*;

verus! {

/// The outcome of claiming `entry` for a handle that demands a signature.
pub open spec fn signer_claim(entry: AccountEntry) -> Result<AccountEntry, ClaimError> {
    if entry.is_signer {
        Ok(entry)
    } else {
        Err(ClaimError::NotSigner)
    }
}

/// The outcome of claiming the front of `accounts` for a handle that
/// demands a signature.
pub open spec fn signer_claim_next(accounts: Seq<AccountEntry>) -> Result<AccountEntry, ClaimError> {
    if accounts.len() == 0 {
        Err(ClaimError::NotEnoughAccounts)
    } else {
        signer_claim(accounts[0])
    }
}

/// The outcome of claiming the front of `accounts` for a handle that checks
/// nothing.
pub open spec fn unchecked_claim_next(accounts: Seq<AccountEntry>) -> Result<AccountEntry, ClaimError> {
    if accounts.len() == 0 {
        Err(ClaimError::NotEnoughAccounts)
    } else {
        Ok(accounts[0])
    }
}

/// The entry list after one claim on `accounts`, whether or not the claimed
/// entry passed validation: the front entry is gone, and an empty list
/// stays empty.
pub open spec fn unclaimed_rest(accounts: Seq<AccountEntry>) -> Seq<AccountEntry> {
    if accounts.len() == 0 {
        accounts
    } else {
        accounts.skip(1)
    }
}

/// The signer flag of the metadata built for `entry`: the override where
/// one is given, else the entry's own flag.
pub open spec fn meta_signer_flag(entry: AccountEntry, is_signer: Option<bool>) -> bool {
    match is_signer {
        Some(flag) => flag,
        None => entry.is_signer,
    }
}

/// The metadata record that describes `entry` to an invoked program.
pub open spec fn meta_of(entry: AccountEntry, is_signer: Option<bool>) -> AccountMeta {
    AccountMeta {
        pubkey: entry.key,
        is_signer: meta_signer_flag(entry, is_signer),
        is_writable: entry.is_writable,
    }
}

/// Whether `claimed`, the result of a claim, is the outcome `expected`:
/// the same error, or a handle whose view is the expected entry.
pub open spec fn is_outcome<H: View<V = AccountEntry>>(
    claimed: Result<H, ClaimError>,
    expected: Result<AccountEntry, ClaimError>,
) -> bool {
    match claimed {
        Ok(handle) => expected == Ok::<AccountEntry, ClaimError>(handle@),
        Err(error) => expected == Err::<AccountEntry, ClaimError>(error),
    }
}

} // verus!
