//! What the claiming and metadata rules imply.

use crate::claim::{meta_of, signer_claim, signer_claim_next, unchecked_claim_next, unclaimed_rest};
use crate::entry::{AccountEntry, ClaimError};
use anchor_lang::solana_program::instruction::AccountMeta;
use vstd::prelude::*;

verus! {

/// An entry that signed is claimed, and the handle wraps that very entry,
/// so the handle's address is the entry's.
pub proof fn lemma_signed_entry_is_claimed(entry: AccountEntry)
    requires
        entry.is_signer,
    ensures
        signer_claim(entry) == Ok::<AccountEntry, ClaimError>(entry),
        signer_claim(entry)->Ok_0.key == entry.key,
{
}

/// An entry that did not sign is refused with `NotSigner`.
pub proof fn lemma_unsigned_entry_is_refused(entry: AccountEntry)
    requires
        !entry.is_signer,
    ensures
        signer_claim(entry) == Err::<AccountEntry, ClaimError>(ClaimError::NotSigner),
{
}

/// On a list that is not empty the unchecked claim succeeds and wraps the
/// front entry, whatever its flags.
pub proof fn lemma_unchecked_claim_succeeds(accounts: Seq<AccountEntry>)
    requires
        accounts.len() > 0,
    ensures
        unchecked_claim_next(accounts) == Ok::<AccountEntry, ClaimError>(accounts[0]),
{
}

/// A claim on a list that is not empty removes the front entry and nothing
/// else: the list is one shorter, the entries behind the front keep their
/// order, and a handle that is made wraps the entry that left.
pub proof fn lemma_claim_removes_front(accounts: Seq<AccountEntry>)
    requires
        accounts.len() > 0,
    ensures
        unclaimed_rest(accounts).len() == accounts.len() - 1,
        accounts == seq![accounts[0]] + unclaimed_rest(accounts),
        forall|i: int| 0 <= i < unclaimed_rest(accounts).len() ==> unclaimed_rest(accounts)[i] == accounts[i + 1],
        signer_claim_next(accounts) is Ok ==> signer_claim_next(accounts)->Ok_0 == accounts[0],
        signer_claim_next(accounts) is Err ==> signer_claim_next(accounts)->Err_0 == ClaimError::NotSigner,
        unchecked_claim_next(accounts) is Ok && unchecked_claim_next(accounts)->Ok_0 == accounts[0],
{
    assert(accounts =~= seq![accounts[0]] + unclaimed_rest(accounts));
}

/// A claim on an empty list fails with `NotEnoughAccounts` for both handle
/// types and leaves the list empty.
pub proof fn lemma_claim_on_empty_list(accounts: Seq<AccountEntry>)
    requires
        accounts.len() == 0,
    ensures
        signer_claim_next(accounts) == Err::<AccountEntry, ClaimError>(ClaimError::NotEnoughAccounts),
        unchecked_claim_next(accounts) == Err::<AccountEntry, ClaimError>(ClaimError::NotEnoughAccounts),
        unclaimed_rest(accounts) == accounts,
        unclaimed_rest(accounts).len() == 0,
{
}

/// The signer check and the unchecked claim differ on no list but one whose
/// front entry did not sign: they take the same entry off the list, and
/// where the signer check passes they wrap the same entry.
pub proof fn lemma_claims_agree_on_signed_front(accounts: Seq<AccountEntry>)
    requires
        accounts.len() == 0 || accounts[0].is_signer,
    ensures
        signer_claim_next(accounts) == unchecked_claim_next(accounts),
{
}

/// Building the metadata twice from one handle and one override gives the
/// same record both times: the record depends on nothing but the wrapped
/// entry and the override.
pub proof fn lemma_metadata_is_repeatable(
    entry: AccountEntry,
    is_signer: Option<bool>,
    first: Seq<AccountMeta>,
    second: Seq<AccountMeta>,
)
    requires
        first == seq![meta_of(entry, is_signer)],
        second == seq![meta_of(entry, is_signer)],
    ensures
        first == second,
{
}

/// The metadata is writable exactly when the entry is, and carries the
/// entry's address.
pub proof fn lemma_metadata_keeps_writability(entry: AccountEntry, is_signer: Option<bool>)
    ensures
        meta_of(entry, is_signer).is_writable == entry.is_writable,
        meta_of(entry, is_signer).pubkey == entry.key,
{
}

/// An override decides the metadata's signer flag, whatever the entry's own
/// flag is; without one the entry's flag is used.
pub proof fn lemma_override_takes_precedence(entry: AccountEntry, flag: bool)
    ensures
        meta_of(entry, Some(flag)).is_signer == flag,
        meta_of(entry, None).is_signer == entry.is_signer,
{
}

} // verus!
