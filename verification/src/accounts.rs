//! What a request shows of the accounts it names.
//!
//! Nothing here is owned or changed by this crate. Each type holds the part of
//! an account that the relationship rules read, as plain values.

use vstd::prelude::*;
use crate::address::Address;

verus! {

/// The fields of a lending pool that name other accounts.
#[derive(Clone, Copy, Debug, PartialEq, Eq)]
pub struct Pool {
    /// The protocol-wide configuration that the pool belongs to.
    pub globals: Address,
    /// The mint of the asset that the pool lends.
    pub base_mint: Address,
    /// The token account that holds the pool's assets.
    pub locker: Address,
    /// The mint of the pool's shares.
    pub shares_mint: Address,
}

/// The fields of a lender's position that name other accounts.
#[derive(Clone, Copy, Debug, PartialEq, Eq)]
pub struct Lender {
    /// The pool that the position is in.
    pub pool: Address,
    /// The account that may act for the position.
    pub owner: Address,
    /// The token account that holds the position's locked shares.
    pub locked_shares: Address,
    /// The token account that holds the position's free shares.
    pub lender_shares: Address,
}

/// The fields of a token account that the rules read.
#[derive(Clone, Copy, Debug, PartialEq, Eq)]
pub struct TokenAccount {
    /// The mint whose tokens the account holds.
    pub mint: Address,
    /// The account that may spend from it.
    pub owner: Address,
}

/// A reference to an account whose contents were read: where it lives and what
/// is stored there.
#[derive(Debug, PartialEq, Eq)]
pub struct Account<T> {
    pub key: Address,
    pub data: T,
}

impl<T: Copy> Clone for Account<T> {
    fn clone(&self) -> (copy: Account<T>)
        ensures
            copy == *self,
    {
        *self
    }
}

impl<T: Copy> Copy for Account<T> {}

/// A reference put forward as the signing caller. `is_signer` is the runtime's
/// own record of whether that account signed the request.
#[derive(Clone, Copy, Debug, PartialEq, Eq)]
pub struct Signer {
    pub key: Address,
    pub is_signer: bool,
}

/// A reference that is passed on without any check of its own. The lending
/// program creates or examines such an account itself; a value of this type
/// says that nothing was left out by oversight.
#[derive(Clone, Copy, Debug, PartialEq, Eq)]
pub struct UncheckedAccount {
    pub key: Address,
}

} // verus!
