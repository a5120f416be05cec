//! Account entries, claim errors, and the runtime's types that handles pass on.

use anchor_lang::solana_program::instruction::AccountMeta;
use anchor_lang::solana_program::pubkey::Pubkey;
use vstd::prelude::*;

verus! {

/// The runtime's address type. Addresses are carried and compared, never
/// taken apart.
#[verifier::external_type_specification]
#[verifier::external_body]
pub struct ExPubkey(Pubkey);

/// The runtime's account metadata record: an address, a signer flag and a
/// writable flag. All three are public fields, so the verifier reads the
/// record as it is defined and nothing is claimed of it here.
#[verifier::external_type_specification]
pub struct ExAccountMeta(AccountMeta);

/// `AccountMeta::new` stores the address and the signer flag it is given and
/// marks the account writable.
pub assume_specification[ AccountMeta::new ](pubkey: Pubkey, is_signer: bool) -> (meta: AccountMeta)
    ensures
        meta.pubkey == pubkey,
        meta.is_signer == is_signer,
        meta.is_writable,
;

/// `AccountMeta::new_readonly` stores the address and the signer flag it is
/// given and marks the account read-only.
pub assume_specification[ AccountMeta::new_readonly ](pubkey: Pubkey, is_signer: bool) -> (meta: AccountMeta)
    ensures
        meta.pubkey == pubkey,
        meta.is_signer == is_signer,
        !meta.is_writable,
;

/// One account taking part in the current instruction, as far as claiming
/// looks at it. The account's balance and data stay with the runtime.
#[derive(Clone, Copy, Debug, PartialEq, Eq)]
pub struct AccountEntry {
    /// Address of the account.
    pub key: Pubkey,
    /// Whether the account's holder authorized the transaction.
    pub is_signer: bool,
    /// Whether the account may be written to.
    pub is_writable: bool,
}

/// Why a claim was turned down. Either one aborts the instruction.
#[derive(Clone, Copy, Debug, PartialEq, Eq, Structural)]
pub enum ClaimError {
    /// The entry list ran out before the handle could claim its entry.
    NotEnoughAccounts,
    /// The claimed entry did not authorize the transaction.
    NotSigner,
}

} // verus!
