use anchor_lang::prelude::{AccountInfo, Pubkey, ToAccountMetas};
use syrup_relay::{Address, AccountMeta, LenderDeposit, LenderInitialize};

fn pubkey(tag: u8) -> Pubkey {
    Pubkey::new_from_array([tag; 32])
}

fn slot(tag: u8) -> Address {
    Address::new([tag; 32])
}

/// The list that the lending program's own client builds, as plain values.
fn plain(metas: Vec<anchor_lang::prelude::AccountMeta>) -> Vec<AccountMeta> {
    metas
        .iter()
        .map(|meta| AccountMeta {
            pubkey: Address::new(meta.pubkey.to_bytes()),
            is_signer: meta.is_signer,
            is_writable: meta.is_writable,
        })
        .collect()
}

#[test]
fn deposit_account_list_is_the_one_the_lending_program_declares() {
    let keys: Vec<Pubkey> = (1..=13u8).map(pubkey).collect();
    let program = pubkey(0);
    let mut lamports = vec![0u64; 13];
    let mut data: Vec<Vec<u8>> = vec![Vec::new(); 13];
    let infos: Vec<AccountInfo> = keys
        .iter()
        .zip(lamports.iter_mut())
        .zip(data.iter_mut())
        .map(|((key, lamports), data)| {
            AccountInfo::new(key, false, false, lamports, data.as_mut_slice(), &program, false)
        })
        .collect();
    let theirs = syrup_cpi::cpi::accounts::LenderDeposit {
        lender: infos[0].clone(),
        lender_user: infos[1].clone(),
        pool: infos[2].clone(),
        globals: infos[3].clone(),
        base_mint: infos[4].clone(),
        pool_locker: infos[5].clone(),
        shares_mint: infos[6].clone(),
        locked_shares: infos[7].clone(),
        lender_shares: infos[8].clone(),
        lender_locker: infos[9].clone(),
        system_program: infos[10].clone(),
        token_program: infos[11].clone(),
        rent: infos[12].clone(),
    };
    let ours = LenderDeposit {
        lender: slot(1),
        lender_user: slot(2),
        pool: slot(3),
        globals: slot(4),
        base_mint: slot(5),
        pool_locker: slot(6),
        shares_mint: slot(7),
        locked_shares: slot(8),
        lender_shares: slot(9),
        lender_locker: slot(10),
        system_program: slot(11),
        token_program: slot(12),
        rent: slot(13),
    };
    assert_eq!(ours.to_account_metas(), plain(theirs.to_account_metas(None)));
}

#[test]
fn initialize_account_list_is_the_one_the_lending_program_declares() {
    let keys: Vec<Pubkey> = (1..=11u8).map(pubkey).collect();
    let program = pubkey(0);
    let mut lamports = vec![0u64; 11];
    let mut data: Vec<Vec<u8>> = vec![Vec::new(); 11];
    let infos: Vec<AccountInfo> = keys
        .iter()
        .zip(lamports.iter_mut())
        .zip(data.iter_mut())
        .map(|((key, lamports), data)| {
            AccountInfo::new(key, false, false, lamports, data.as_mut_slice(), &program, false)
        })
        .collect();
    let theirs = syrup_cpi::cpi::accounts::LenderInitialize {
        payer: infos[0].clone(),
        owner: infos[1].clone(),
        pool: infos[2].clone(),
        shares_mint: infos[3].clone(),
        lender: infos[4].clone(),
        locked_shares: infos[5].clone(),
        lender_shares: infos[6].clone(),
        system_program: infos[7].clone(),
        token_program: infos[8].clone(),
        associated_token_program: infos[9].clone(),
        rent: infos[10].clone(),
    };
    let ours = LenderInitialize {
        payer: slot(1),
        owner: slot(2),
        pool: slot(3),
        shares_mint: slot(4),
        lender: slot(5),
        locked_shares: slot(6),
        lender_shares: slot(7),
        system_program: slot(8),
        token_program: slot(9),
        associated_token_program: slot(10),
        rent: slot(11),
    };
    assert_eq!(ours.to_account_metas(), plain(theirs.to_account_metas(None)));
}

#[test]
fn deposit_account_list_has_the_declared_access() {
    let ours = LenderDeposit {
        lender: slot(1),
        lender_user: slot(2),
        pool: slot(3),
        globals: slot(4),
        base_mint: slot(5),
        pool_locker: slot(6),
        shares_mint: slot(7),
        locked_shares: slot(8),
        lender_shares: slot(9),
        lender_locker: slot(10),
        system_program: slot(11),
        token_program: slot(12),
        rent: slot(13),
    };
    let metas = ours.to_account_metas();
    let keys: Vec<Address> = metas.iter().map(|meta| meta.pubkey).collect();
    let writable: Vec<bool> = metas.iter().map(|meta| meta.is_writable).collect();
    let signing: Vec<bool> = metas.iter().map(|meta| meta.is_signer).collect();
    assert_eq!(keys, (1..=13u8).map(slot).collect::<Vec<Address>>());
    assert_eq!(
        writable,
        vec![true, false, true, false, false, true, true, true, true, true, false, false, false]
    );
    assert_eq!(
        signing,
        vec![false, true, false, false, false, false, false, false, false, false, false, false, false]
    );
}

#[test]
fn initialize_account_list_has_the_declared_access() {
    let ours = LenderInitialize {
        payer: slot(1),
        owner: slot(2),
        pool: slot(3),
        shares_mint: slot(4),
        lender: slot(5),
        locked_shares: slot(6),
        lender_shares: slot(7),
        system_program: slot(8),
        token_program: slot(9),
        associated_token_program: slot(10),
        rent: slot(11),
    };
    let metas = ours.to_account_metas();
    let keys: Vec<Address> = metas.iter().map(|meta| meta.pubkey).collect();
    let writable: Vec<bool> = metas.iter().map(|meta| meta.is_writable).collect();
    let signing: Vec<bool> = metas.iter().map(|meta| meta.is_signer).collect();
    assert_eq!(keys, (1..=11u8).map(slot).collect::<Vec<Address>>());
    assert_eq!(
        writable,
        vec![true, false, false, true, true, true, true, false, false, false, false]
    );
    assert_eq!(
        signing,
        vec![true, false, false, false, false, false, false, false, false, false, false]
    );
}

#[test]
fn account_entries_carry_the_access_asked_for() {
    let written = AccountMeta::new(slot(3), true);
    assert_eq!(written, AccountMeta { pubkey: slot(3), is_signer: true, is_writable: true });
    let read = AccountMeta::new_readonly(slot(4), false);
    assert_eq!(read, AccountMeta { pubkey: slot(4), is_signer: false, is_writable: false });
}
