use account_handles::entry::{AccountEntry, ClaimError};
use account_handles::signer::Signer;
use anchor_lang::solana_program::instruction::AccountMeta;
use anchor_lang::solana_program::pubkey::Pubkey;
use std::collections::BTreeSet;

fn address(byte: u8) -> Pubkey {
    Pubkey::new_from_array([byte; 32])
}

fn entry(byte: u8, is_signer: bool, is_writable: bool) -> AccountEntry {
    AccountEntry { key: address(byte), is_signer, is_writable }
}

#[test]
fn signer_try_from_wraps_a_signed_entry() {
    for is_writable in [false, true] {
        let e = entry(1, true, is_writable);
        let handle = Signer::try_from(&e).unwrap();
        assert_eq!(handle.key(), address(1));
        assert_eq!(*handle.as_ref(), e);
        assert!(handle.is_signer());
        assert_eq!(handle.is_writable(), is_writable);
    }
}

#[test]
fn signer_try_from_hands_back_the_same_reference() {
    let e = entry(1, true, false);
    let handle = Signer::try_from(&e).unwrap();
    assert!(std::ptr::eq(handle.as_ref(), &e));
}

#[test]
fn signer_try_from_refuses_an_unsigned_entry() {
    for is_writable in [false, true] {
        let e = entry(2, false, is_writable);
        assert_eq!(Signer::try_from(&e).unwrap_err(), ClaimError::NotSigner);
    }
}

#[test]
fn signer_try_accounts_takes_the_front_entry() {
    let entries = vec![entry(1, true, false), entry(2, true, true), entry(3, false, false)];
    let mut rest: &[AccountEntry] = &entries;
    let mut bumps = 0u8;
    let mut reallocs = BTreeSet::new();
    let handle = Signer::try_accounts(&address(9), &mut rest, &[], &mut bumps, &mut reallocs).unwrap();
    assert_eq!(*handle.as_ref(), entries[0]);
    assert!(std::ptr::eq(handle.as_ref(), &entries[0]));
    assert_eq!(rest.len(), 2);
    assert_eq!(rest, &entries[1..]);
}

#[test]
fn signer_try_accounts_takes_the_last_entry() {
    let entries = vec![entry(4, true, true)];
    let mut rest: &[AccountEntry] = &entries;
    let mut bumps = 0u8;
    let mut reallocs = BTreeSet::new();
    let handle = Signer::try_accounts(&address(9), &mut rest, &[], &mut bumps, &mut reallocs).unwrap();
    assert_eq!(handle.key(), address(4));
    assert!(rest.is_empty());
}

#[test]
fn signer_try_accounts_fails_on_an_empty_list() {
    let entries: Vec<AccountEntry> = Vec::new();
    let mut rest: &[AccountEntry] = &entries;
    let mut bumps = 0u8;
    let mut reallocs = BTreeSet::new();
    let claimed = Signer::try_accounts(&address(9), &mut rest, &[1, 2, 3], &mut bumps, &mut reallocs);
    assert_eq!(claimed.unwrap_err(), ClaimError::NotEnoughAccounts);
    assert!(rest.is_empty());
}

#[test]
fn signer_try_accounts_consumes_the_entry_it_refuses() {
    let entries = vec![entry(1, false, false), entry(2, true, false)];
    let mut rest: &[AccountEntry] = &entries;
    let mut bumps = 0u8;
    let mut reallocs = BTreeSet::new();
    let claimed = Signer::try_accounts(&address(9), &mut rest, &[], &mut bumps, &mut reallocs);
    assert_eq!(claimed.unwrap_err(), ClaimError::NotSigner);
    assert_eq!(rest, &entries[1..]);
}

#[test]
fn signer_try_accounts_leaves_the_side_tables_alone() {
    let entries = vec![entry(1, true, false)];
    let mut rest: &[AccountEntry] = &entries;
    let mut bumps = vec![(String::from("vault"), 254u8)];
    let mut reallocs = BTreeSet::new();
    reallocs.insert(address(7));
    let program = address(9);
    let data = [5u8, 6, 7];
    Signer::try_accounts(&program, &mut rest, &data, &mut bumps, &mut reallocs).unwrap();
    assert_eq!(bumps, vec![(String::from("vault"), 254u8)]);
    assert_eq!(reallocs.len(), 1);
    assert!(reallocs.contains(&address(7)));
    assert_eq!(program, address(9));
    assert_eq!(data, [5u8, 6, 7]);
}

#[test]
fn signer_metas_are_the_same_on_every_call() {
    let e = entry(1, true, true);
    let handle = Signer::try_from(&e).unwrap();
    let first = handle.to_account_metas(None);
    let second = handle.to_account_metas(None);
    assert_eq!(first, second);
    assert_eq!(first, vec![AccountMeta::new(address(1), true)]);
}

#[test]
fn signer_metas_follow_the_writable_flag() {
    let writable = entry(1, true, true);
    let metas = Signer::try_from(&writable).unwrap().to_account_metas(None);
    assert_eq!(metas.len(), 1);
    assert_eq!(metas[0].pubkey, address(1));
    assert!(metas[0].is_writable);
    assert!(metas[0].is_signer);

    let readonly = entry(2, true, false);
    let metas = Signer::try_from(&readonly).unwrap().to_account_metas(None);
    assert_eq!(metas.len(), 1);
    assert_eq!(metas[0].pubkey, address(2));
    assert!(!metas[0].is_writable);
    assert!(metas[0].is_signer);
    assert_eq!(metas, vec![AccountMeta::new_readonly(address(2), true)]);
}

#[test]
fn signer_metas_take_the_override() {
    for is_writable in [false, true] {
        let e = entry(3, true, is_writable);
        let handle = Signer::try_from(&e).unwrap();
        let agreeing = handle.to_account_metas(Some(true));
        assert!(agreeing[0].is_signer);
        assert_eq!(agreeing[0].is_writable, is_writable);
        let disagreeing = handle.to_account_metas(Some(false));
        assert!(!disagreeing[0].is_signer);
        assert_eq!(disagreeing[0].is_writable, is_writable);
        assert_eq!(disagreeing[0].pubkey, address(3));
    }
}

#[test]
fn signer_account_infos_hold_the_entry_once() {
    let e = entry(5, true, true);
    let handle = Signer::try_from(&e).unwrap();
    assert_eq!(handle.to_account_infos(), vec![e]);
}

#[test]
fn signer_clone_wraps_the_same_entry() {
    let e = entry(6, true, false);
    let handle = Signer::try_from(&e).unwrap();
    let copy = handle.clone();
    assert!(std::ptr::eq(copy.as_ref(), handle.as_ref()));
    assert_eq!(copy.key(), address(6));
}

#[test]
fn signer_exit_does_nothing() {
    let e = entry(6, true, true);
    let handle = Signer::try_from(&e).unwrap();
    assert_eq!(handle.exit(&address(9)), Ok(()));
    assert_eq!(*handle.as_ref(), entry(6, true, true));
}
