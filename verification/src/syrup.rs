//! The two calls that are made to the lending program, as it declares them.
//!
//! An account list names the accounts of a call slot by slot. Its order and
//! the access asked for each slot are the lending program's own: a slot that
//! the program writes is passed writable, the others read-only, and only the
//! slot of the paying or depositing caller is marked as signing.

use vstd::prelude::*;
use crate::address::Address;

verus! {

/// One entry of the account list of a call: the account and the access that
/// the callee is given to it.
#[derive(Clone, Copy, Debug, PartialEq, Eq)]
pub struct AccountMeta {
    pub pubkey: Address,
    pub is_signer: bool,
    pub is_writable: bool,
}

impl AccountMeta {
    /// An entry for an account that the callee may write.
    pub fn new(pubkey: Address, is_signer: bool) -> (meta: AccountMeta)
        ensures
            meta == writable(pubkey, is_signer),
    {
        AccountMeta { pubkey, is_signer, is_writable: true }
    }

    /// An entry for an account that the callee may only read.
    pub fn new_readonly(pubkey: Address, is_signer: bool) -> (meta: AccountMeta)
        ensures
            meta == readonly(pubkey, is_signer),
    {
        AccountMeta { pubkey, is_signer, is_writable: false }
    }
}

/// The entry for `pubkey` passed writable.
pub open spec fn writable(pubkey: Address, is_signer: bool) -> AccountMeta {
    AccountMeta { pubkey, is_signer, is_writable: true }
}

/// The entry for `pubkey` passed read-only.
pub open spec fn readonly(pubkey: Address, is_signer: bool) -> AccountMeta {
    AccountMeta { pubkey, is_signer, is_writable: false }
}

/// The accounts of the call that opens a lender position.
#[derive(Clone, Copy, Debug, PartialEq, Eq)]
pub struct LenderInitialize {
    pub payer: Address,
    pub owner: Address,
    pub pool: Address,
    pub shares_mint: Address,
    pub lender: Address,
    pub locked_shares: Address,
    pub lender_shares: Address,
    pub system_program: Address,
    pub token_program: Address,
    pub associated_token_program: Address,
    pub rent: Address,
}

impl LenderInitialize {
    /// The account list in the order of the lending program's declaration.
    pub open spec fn account_metas(self) -> Seq<AccountMeta> {
        seq![
            writable(self.payer, true),
            readonly(self.owner, false),
            readonly(self.pool, false),
            writable(self.shares_mint, false),
            writable(self.lender, false),
            writable(self.locked_shares, false),
            writable(self.lender_shares, false),
            readonly(self.system_program, false),
            readonly(self.token_program, false),
            readonly(self.associated_token_program, false),
            readonly(self.rent, false),
        ]
    }

    /// The account list in the order of the lending program's declaration.
    pub fn to_account_metas(&self) -> (metas: Vec<AccountMeta>)
        ensures
            metas@ == self.account_metas(),
    {
        let mut metas: Vec<AccountMeta> = Vec::new();
        metas.push(AccountMeta::new(self.payer, true));
        metas.push(AccountMeta::new_readonly(self.owner, false));
        metas.push(AccountMeta::new_readonly(self.pool, false));
        metas.push(AccountMeta::new(self.shares_mint, false));
        metas.push(AccountMeta::new(self.lender, false));
        metas.push(AccountMeta::new(self.locked_shares, false));
        metas.push(AccountMeta::new(self.lender_shares, false));
        metas.push(AccountMeta::new_readonly(self.system_program, false));
        metas.push(AccountMeta::new_readonly(self.token_program, false));
        metas.push(AccountMeta::new_readonly(self.associated_token_program, false));
        metas.push(AccountMeta::new_readonly(self.rent, false));
        assert(metas@ =~= self.account_metas());
        metas
    }
}

/// The accounts of the call that deposits into a pool.
#[derive(Clone, Copy, Debug, PartialEq, Eq)]
pub struct LenderDeposit {
    pub lender: Address,
    pub lender_user: Address,
    pub pool: Address,
    pub globals: Address,
    pub base_mint: Address,
    pub pool_locker: Address,
    pub shares_mint: Address,
    pub locked_shares: Address,
    pub lender_shares: Address,
    pub lender_locker: Address,
    pub system_program: Address,
    pub token_program: Address,
    pub rent: Address,
}

impl LenderDeposit {
    /// The account list in the order of the lending program's declaration.
    pub open spec fn account_metas(self) -> Seq<AccountMeta> {
        seq![
            writable(self.lender, false),
            readonly(self.lender_user, true),
            writable(self.pool, false),
            readonly(self.globals, false),
            readonly(self.base_mint, false),
            writable(self.pool_locker, false),
            writable(self.shares_mint, false),
            writable(self.locked_shares, false),
            writable(self.lender_shares, false),
            writable(self.lender_locker, false),
            readonly(self.system_program, false),
            readonly(self.token_program, false),
            readonly(self.rent, false),
        ]
    }

    /// The account list in the order of the lending program's declaration.
    pub fn to_account_metas(&self) -> (metas: Vec<AccountMeta>)
        ensures
            metas@ == self.account_metas(),
    {
        let mut metas: Vec<AccountMeta> = Vec::new();
        metas.push(AccountMeta::new(self.lender, false));
        metas.push(AccountMeta::new_readonly(self.lender_user, true));
        metas.push(AccountMeta::new(self.pool, false));
        metas.push(AccountMeta::new_readonly(self.globals, false));
        metas.push(AccountMeta::new_readonly(self.base_mint, false));
        metas.push(AccountMeta::new(self.pool_locker, false));
        metas.push(AccountMeta::new(self.shares_mint, false));
        metas.push(AccountMeta::new(self.locked_shares, false));
        metas.push(AccountMeta::new(self.lender_shares, false));
        metas.push(AccountMeta::new(self.lender_locker, false));
        metas.push(AccountMeta::new_readonly(self.system_program, false));
        metas.push(AccountMeta::new_readonly(self.token_program, false));
        metas.push(AccountMeta::new_readonly(self.rent, false));
        assert(metas@ =~= self.account_metas());
        metas
    }
}

/// A call that opens a lender position: the program to invoke and the
/// accounts handed to it. The call has no arguments.
#[derive(Clone, Copy, Debug, PartialEq, Eq)]
pub struct LenderInitializeCall {
    pub program: Address,
    pub accounts: LenderInitialize,
}

/// A call that deposits into a pool: the program to invoke, the accounts
/// handed to it and the amount, in the smallest unit of the base asset.
#[derive(Clone, Copy, Debug, PartialEq, Eq)]
pub struct LenderDepositCall {
    pub program: Address,
    pub accounts: LenderDeposit,
    pub deposit_amount: u64,
}

} // verus!
