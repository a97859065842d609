//! Opening a lender position.

use vstd::prelude::*;
use crate::accounts::{Account, Pool, UncheckedAccount};
use crate::address::Address;
use crate::error::{propagate, propagated, CallFailure, HandlerError};
use crate::rules::{ConstraintViolation, Rule};
use crate::syrup::{LenderInitialize, LenderInitializeCall};

verus! {

/// The accounts of a request to open a lender position, as the caller
/// supplied them.
#[derive(Clone, Copy, Debug, PartialEq, Eq)]
pub struct CegaWrapperSyrupDepositInitialize {
    /// The account that pays for the new accounts.
    pub payer: Address,
    /// The account that the position is opened for. It is passed on as it
    /// is; the lending program decides what it accepts.
    pub owner: UncheckedAccount,
    /// The pool that the position is opened in.
    pub pool: Account<Pool>,
    /// The mint of the pool's shares.
    pub shares_mint: Address,
    /// The lender position, which the lending program creates.
    pub lender: UncheckedAccount,
    /// The token account for locked shares, which the lending program creates.
    pub locked_shares: UncheckedAccount,
    /// The token account for free shares, which the lending program creates.
    pub lender_shares: UncheckedAccount,
    pub system_program: Address,
    pub token_program: Address,
    pub associated_token_program: Address,
    pub rent: Address,
    /// The lending program.
    pub syrup: Address,
}

impl CegaWrapperSyrupDepositInitialize {
    /// The shares mint is the one that the pool names. This is the only rule
    /// for this request.
    pub open spec fn satisfied(self) -> bool {
        self.shares_mint == self.pool.data.shares_mint
    }

    /// What validation reports for this bundle.
    pub open spec fn validation(self) -> Result<(), ConstraintViolation> {
        if self.satisfied() {
            Ok(())
        } else {
            Err(ConstraintViolation { rule: Rule::SharesMint })
        }
    }

    /// The call for this bundle: each slot of the call names the account in
    /// the same slot of the bundle.
    pub open spec fn lender_initialize_call(self) -> LenderInitializeCall {
        LenderInitializeCall {
            program: self.syrup,
            accounts: LenderInitialize {
                payer: self.payer,
                owner: self.owner.key,
                pool: self.pool.key,
                shares_mint: self.shares_mint,
                lender: self.lender.key,
                locked_shares: self.locked_shares.key,
                lender_shares: self.lender_shares.key,
                system_program: self.system_program,
                token_program: self.token_program,
                associated_token_program: self.associated_token_program,
                rent: self.rent,
            },
        }
    }

    /// Checks that the shares mint is the pool's. Nothing else is asked of
    /// the bundle: the owner and the three accounts still to be created are
    /// not looked at.
    pub fn validate(&self) -> (outcome: Result<(), ConstraintViolation>)
        ensures
            outcome == self.validation(),
    {
        if self.shares_mint == self.pool.data.shares_mint {
            Ok(())
        } else {
            Err(ConstraintViolation { rule: Rule::SharesMint })
        }
    }

    /// Builds the call from the bundle.
    pub fn lender_initialize(&self) -> (call: LenderInitializeCall)
        ensures
            call == self.lender_initialize_call(),
    {
        LenderInitializeCall {
            program: self.syrup,
            accounts: LenderInitialize {
                payer: self.payer,
                owner: self.owner.key,
                pool: self.pool.key,
                shares_mint: self.shares_mint,
                lender: self.lender.key,
                locked_shares: self.locked_shares.key,
                lender_shares: self.lender_shares.key,
                system_program: self.system_program,
                token_program: self.token_program,
                associated_token_program: self.associated_token_program,
                rent: self.rent,
            },
        }
    }

    /// Validation keeps no state: whatever it reports for a bundle, it reports
    /// the same every time it is run on that bundle.
    pub proof fn lemma_validation_is_repeatable(
        self,
        first: Result<(), ConstraintViolation>,
        second: Result<(), ConstraintViolation>,
    )
        requires
            call_ensures(CegaWrapperSyrupDepositInitialize::validate, (&self,), first),
            call_ensures(CegaWrapperSyrupDepositInitialize::validate, (&self,), second),
        ensures
            first == second,
    {
    }

    /// Whether a bundle is accepted depends on the shares mint and the pool's
    /// record of it alone: two bundles that agree on these are accepted or
    /// rejected together, whatever stands in their other slots.
    pub proof fn lemma_only_shares_mint_is_checked(self, other: CegaWrapperSyrupDepositInitialize)
        requires
            self.shares_mint == other.shares_mint,
            self.pool.data.shares_mint == other.pool.data.shares_mint,
        ensures
            self.validation() == other.validation(),
    {
    }
}

/// What a request to open a position may end in, given the function that
/// reaches the lending program.
///
/// A satisfied bundle ends in whatever `invoke` reports for the call of this
/// bundle. Any other bundle ends in the violation of the shares-mint rule,
/// whatever `invoke` is.
pub open spec fn initialize_result<
    E,
    F: FnOnce(LenderInitializeCall) -> Result<(), CallFailure<E>>,
>(ctx: CegaWrapperSyrupDepositInitialize, invoke: F, result: Result<(), HandlerError<E>>) -> bool {
    if ctx.satisfied() {
        exists|reply: Result<(), CallFailure<E>>|
            #[trigger] call_ensures(invoke, (ctx.lender_initialize_call(),), reply) && result
                == propagated(reply)
    } else {
        result == Err::<(), HandlerError<E>>(
            HandlerError::ConstraintViolation(ConstraintViolation { rule: Rule::SharesMint }),
        )
    }
}

/// Handles a request to open a lender position.
///
/// The bundle is validated first. If the shares mint is not the pool's, the
/// request ends there and `invoke` is not called. Otherwise `invoke` is called
/// once, with the call built from the bundle, and what it reports is returned.
pub fn sryup_deposit_init<E, F>(ctx: &CegaWrapperSyrupDepositInitialize, invoke: F) -> (result:
    Result<(), HandlerError<E>>) where
    F: FnOnce(LenderInitializeCall) -> Result<(), CallFailure<E>>,

    requires
        ctx.satisfied() ==> call_requires(invoke, (ctx.lender_initialize_call(),)),
    ensures
        initialize_result(*ctx, invoke, result),
{
    match ctx.validate() {
        Err(violation) => Err(HandlerError::ConstraintViolation(violation)),
        Ok(_) => {
            let call = ctx.lender_initialize();
            let reply = invoke(call);
            propagate(reply)
        },
    }
}

} // verus!
