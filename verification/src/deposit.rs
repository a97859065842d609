//! Depositing into a pool.

use vstd::prelude::*;
use crate::accounts::{Account, Lender, Pool, Signer, TokenAccount};
use crate::address::Address;
use crate::error::{propagate, propagated, CallFailure, HandlerError};
use crate::rules::{ConstraintViolation, Rule, RULE_COUNT};
use crate::syrup::{LenderDeposit, LenderDepositCall};

verus! {

/// The accounts of a deposit request, as the caller supplied them.
#[derive(Clone, Copy, Debug, PartialEq, Eq)]
pub struct CegaWrapperSyrupDeposit {
    /// The lender position that receives the deposit.
    pub lender: Account<Lender>,
    /// The depositing caller.
    pub lender_user: Signer,
    /// The pool deposited into.
    pub pool: Account<Pool>,
    /// The protocol-wide configuration.
    pub globals: Address,
    /// The token account that holds the pool's assets.
    pub pool_locker: Address,
    /// The mint of the deposited asset.
    pub base_mint: Address,
    /// The mint of the pool's shares.
    pub shares_mint: Address,
    /// The token account for the position's locked shares.
    pub locked_shares: Address,
    /// The token account for the position's free shares.
    pub lender_shares: Address,
    /// The caller's own token account, which the deposit is taken from.
    pub lender_locker: Account<TokenAccount>,
    pub system_program: Address,
    pub token_program: Address,
    pub rent: Address,
    /// The lending program.
    pub syrup: Address,
}

impl CegaWrapperSyrupDeposit {
    /// Whether `rule` holds of this bundle.
    pub open spec fn holds(self, rule: Rule) -> bool {
        match rule {
            Rule::LenderUser => self.lender_user.is_signer && self.lender_user.key
                == self.lender.data.owner,
            Rule::Pool => self.pool.key == self.lender.data.pool,
            Rule::Globals => self.globals == self.pool.data.globals,
            Rule::PoolLocker => self.pool_locker == self.pool.data.locker,
            Rule::BaseMint => self.base_mint == self.pool.data.base_mint,
            Rule::SharesMint => self.shares_mint == self.pool.data.shares_mint,
            Rule::LockedShares => self.locked_shares == self.lender.data.locked_shares,
            Rule::LenderShares => self.lender_shares == self.lender.data.lender_shares,
            Rule::LenderLocker => self.lender_locker.data.owner == self.lender_user.key
                && self.lender_locker.data.mint == self.pool.data.base_mint,
        }
    }

    /// Every rule of the table holds.
    pub open spec fn satisfied(self) -> bool {
        forall|rule: Rule| #[trigger] self.holds(rule)
    }

    /// `rule` fails and every rule before it in the table holds.
    pub open spec fn first_violation(self, rule: Rule) -> bool {
        &&& !self.holds(rule)
        &&& forall|earlier: Rule|
            earlier.ordinal() < rule.ordinal() ==> #[trigger] self.holds(earlier)
    }

    /// The deposit call for this bundle: each slot of the call names the
    /// account in the same slot of the bundle, and the amount is `deposit_amount`.
    pub open spec fn lender_deposit_call(self, deposit_amount: u64) -> LenderDepositCall {
        LenderDepositCall {
            program: self.syrup,
            accounts: LenderDeposit {
                lender: self.lender.key,
                lender_user: self.lender_user.key,
                pool: self.pool.key,
                globals: self.globals,
                base_mint: self.base_mint,
                pool_locker: self.pool_locker,
                shares_mint: self.shares_mint,
                locked_shares: self.locked_shares,
                lender_shares: self.lender_shares,
                lender_locker: self.lender_locker.key,
                system_program: self.system_program,
                token_program: self.token_program,
                rent: self.rent,
            },
            deposit_amount,
        }
    }

    /// Evaluates one rule of the table.
    pub fn check(&self, rule: Rule) -> (ok: bool)
        ensures
            ok == self.holds(rule),
    {
        match rule {
            Rule::LenderUser => self.lender_user.is_signer && self.lender_user.key
                == self.lender.data.owner,
            Rule::Pool => self.pool.key == self.lender.data.pool,
            Rule::Globals => self.globals == self.pool.data.globals,
            Rule::PoolLocker => self.pool_locker == self.pool.data.locker,
            Rule::BaseMint => self.base_mint == self.pool.data.base_mint,
            Rule::SharesMint => self.shares_mint == self.pool.data.shares_mint,
            Rule::LockedShares => self.locked_shares == self.lender.data.locked_shares,
            Rule::LenderShares => self.lender_shares == self.lender.data.lender_shares,
            Rule::LenderLocker => self.lender_locker.data.owner == self.lender_user.key
                && self.lender_locker.data.mint == self.pool.data.base_mint,
        }
    }

    /// Holds the bundle against the table, rule by rule in table order, and
    /// stops at the first rule that fails.
    pub fn validate(&self) -> (outcome: Result<(), ConstraintViolation>)
        ensures
            match outcome {
                Ok(_) => self.satisfied(),
                Err(violation) => self.first_violation(violation.rule),
            },
    {
        let mut n: u8 = 1;
        while n <= RULE_COUNT
            invariant
                1 <= n <= RULE_COUNT + 1,
                forall|rule: Rule| rule.ordinal() < n ==> #[trigger] self.holds(rule),
            decreases RULE_COUNT + 1 - n,
        {
            if let Some(rule) = Rule::from_number(n) {
                if !self.check(rule) {
                    return Err(ConstraintViolation { rule });
                }
            }
            n += 1;
        }
        Ok(())
    }

    /// Builds the deposit call from the bundle. The amount is not inspected:
    /// any value, zero and the largest included, is passed on as given.
    pub fn lender_deposit(&self, deposit_amount: u64) -> (call: LenderDepositCall)
        ensures
            call == self.lender_deposit_call(deposit_amount),
            call.deposit_amount == deposit_amount,
    {
        LenderDepositCall {
            program: self.syrup,
            accounts: LenderDeposit {
                lender: self.lender.key,
                lender_user: self.lender_user.key,
                pool: self.pool.key,
                globals: self.globals,
                base_mint: self.base_mint,
                pool_locker: self.pool_locker,
                shares_mint: self.shares_mint,
                locked_shares: self.locked_shares,
                lender_shares: self.lender_shares,
                lender_locker: self.lender_locker.key,
                system_program: self.system_program,
                token_program: self.token_program,
                rent: self.rent,
            },
            deposit_amount,
        }
    }

    /// At most one rule is the first to fail.
    pub proof fn lemma_first_violation_is_unique(self, rule: Rule, other: Rule)
        requires
            self.first_violation(rule),
            self.first_violation(other),
        ensures
            rule == other,
    {
        rule.lemma_ordinal_identifies(other);
    }

    /// A bundle is satisfied exactly when no rule is the first to fail.
    pub proof fn lemma_satisfied_iff_no_violation(self)
        ensures
            self.satisfied() <==> forall|rule: Rule| !self.first_violation(rule),
    {
        if !self.satisfied() {
            let failing = choose|rule: Rule| !self.holds(rule);
            self.lemma_some_rule_fails_first(failing, 1);
        }
    }

    proof fn lemma_some_rule_fails_first(self, failing: Rule, from: int)
        requires
            !self.holds(failing),
            1 <= from <= failing.ordinal(),
            forall|earlier: Rule| earlier.ordinal() < from ==> #[trigger] self.holds(earlier),
        ensures
            exists|rule: Rule| self.first_violation(rule),
        decreases failing.ordinal() - from,
    {
        let here = choose|rule: Rule| rule.ordinal() == from;
        assert(exists|rule: Rule| rule.ordinal() == from) by {
            assert(Rule::LenderUser.ordinal() == 1);
            assert(Rule::Pool.ordinal() == 2);
            assert(Rule::Globals.ordinal() == 3);
            assert(Rule::PoolLocker.ordinal() == 4);
            assert(Rule::BaseMint.ordinal() == 5);
            assert(Rule::SharesMint.ordinal() == 6);
            assert(Rule::LockedShares.ordinal() == 7);
            assert(Rule::LenderShares.ordinal() == 8);
            assert(Rule::LenderLocker.ordinal() == 9);
        }
        if !self.holds(here) {
            assert(self.first_violation(here));
        } else {
            assert forall|earlier: Rule| earlier.ordinal() < from + 1 implies #[trigger] self.holds(
                earlier,
            ) by {
                if earlier.ordinal() == from {
                    earlier.lemma_ordinal_identifies(here);
                }
            }
            self.lemma_some_rule_fails_first(failing, from + 1);
        }
    }
}

impl CegaWrapperSyrupDeposit {
    /// Validation keeps no state: whatever it reports for a bundle, it reports
    /// the same every time it is run on that bundle.
    pub proof fn lemma_validation_is_repeatable(
        self,
        first: Result<(), ConstraintViolation>,
        second: Result<(), ConstraintViolation>,
    )
        requires
            call_ensures(CegaWrapperSyrupDeposit::validate, (&self,), first),
            call_ensures(CegaWrapperSyrupDeposit::validate, (&self,), second),
        ensures
            first == second,
    {
        match (first, second) {
            (Ok(a), Ok(b)) => {
                assert(a == b);
            },
            (Err(a), Err(b)) => {
                self.lemma_first_violation_is_unique(a.rule, b.rule);
            },
            (Ok(_), Err(b)) => {
                assert(self.holds(b.rule));
            },
            (Err(a), Ok(_)) => {
                assert(self.holds(a.rule));
            },
        }
    }

    /// A bundle in which one rule fails and every other rule holds is rejected
    /// with that rule.
    pub proof fn lemma_single_failure_is_reported(
        self,
        rule: Rule,
        outcome: Result<(), ConstraintViolation>,
    )
        requires
            !self.holds(rule),
            forall|other: Rule| other != rule ==> #[trigger] self.holds(other),
            call_ensures(CegaWrapperSyrupDeposit::validate, (&self,), outcome),
        ensures
            outcome == Err::<(), ConstraintViolation>(ConstraintViolation { rule }),
    {
        match outcome {
            Ok(_) => {
                assert(self.holds(rule));
            },
            Err(violation) => {
                assert(!self.holds(violation.rule));
            },
        }
    }

    /// A bundle that satisfies every rule is accepted, and the call built from
    /// it names the accounts of the bundle slot for slot, is addressed to the
    /// lending program of the bundle, and carries the amount unchanged.
    pub proof fn lemma_satisfied_bundle_is_forwarded(
        self,
        deposit_amount: u64,
        outcome: Result<(), ConstraintViolation>,
        call: LenderDepositCall,
    )
        requires
            self.satisfied(),
            call_ensures(CegaWrapperSyrupDeposit::validate, (&self,), outcome),
            call_ensures(CegaWrapperSyrupDeposit::lender_deposit, (&self, deposit_amount), call),
        ensures
            outcome is Ok,
            call.deposit_amount == deposit_amount,
            call.program == self.syrup,
            call.accounts.lender == self.lender.key,
            call.accounts.lender_user == self.lender_user.key,
            call.accounts.pool == self.pool.key,
            call.accounts.globals == self.globals,
            call.accounts.base_mint == self.base_mint,
            call.accounts.pool_locker == self.pool_locker,
            call.accounts.shares_mint == self.shares_mint,
            call.accounts.locked_shares == self.locked_shares,
            call.accounts.lender_shares == self.lender_shares,
            call.accounts.lender_locker == self.lender_locker.key,
            call.accounts.system_program == self.system_program,
            call.accounts.token_program == self.token_program,
            call.accounts.rent == self.rent,
    {
        if let Err(violation) = outcome {
            assert(self.holds(violation.rule));
        }
    }
}

/// What a deposit request may end in, given the function that reaches the
/// lending program.
///
/// A satisfied bundle ends in whatever `invoke` reports for the deposit call
/// of this bundle and amount. Any other bundle ends in the violation of the
/// first rule that fails, whatever `invoke` is.
pub open spec fn deposit_result<E, F: FnOnce(LenderDepositCall) -> Result<(), CallFailure<E>>>(
    ctx: CegaWrapperSyrupDeposit,
    deposit_amount: u64,
    invoke: F,
    result: Result<(), HandlerError<E>>,
) -> bool {
    if ctx.satisfied() {
        exists|reply: Result<(), CallFailure<E>>|
            #[trigger] call_ensures(invoke, (ctx.lender_deposit_call(deposit_amount),), reply)
                && result == propagated(reply)
    } else {
        result matches Err(HandlerError::ConstraintViolation(violation)) && ctx.first_violation(
            violation.rule,
        )
    }
}

/// Handles a deposit request.
///
/// The bundle is validated first. If a rule fails, the request ends there and
/// `invoke` is not called. Otherwise `invoke` is called once, with the deposit
/// call built from the bundle and `deposit_amount`, and what it reports is
/// returned.
pub fn syrup_deposit<E, F>(
    ctx: &CegaWrapperSyrupDeposit,
    deposit_amount: u64,
    invoke: F,
) -> (result: Result<(), HandlerError<E>>) where
    F: FnOnce(LenderDepositCall) -> Result<(), CallFailure<E>>,

    requires
        ctx.satisfied() ==> call_requires(invoke, (ctx.lender_deposit_call(deposit_amount),)),
    ensures
        deposit_result(*ctx, deposit_amount, invoke, result),
{
    match ctx.validate() {
        Err(violation) => Err(HandlerError::ConstraintViolation(violation)),
        Ok(_) => {
            let call = ctx.lender_deposit(deposit_amount);
            let reply = invoke(call);
            propagate(reply)
        },
    }
}

/// A bundle that fails a rule is rejected with the first rule that fails,
/// and the function that reaches the lending program has no part in it: with
/// any two such functions the request ends the same way.
pub proof fn lemma_rejection_needs_no_call<E, F, G>(
    ctx: CegaWrapperSyrupDeposit,
    deposit_amount: u64,
    invoke: F,
    other_invoke: G,
    result: Result<(), HandlerError<E>>,
    other_result: Result<(), HandlerError<E>>,
) where
    F: FnOnce(LenderDepositCall) -> Result<(), CallFailure<E>>,
    G: FnOnce(LenderDepositCall) -> Result<(), CallFailure<E>>,

    requires
        !ctx.satisfied(),
        call_ensures(syrup_deposit::<E, F>, (&ctx, deposit_amount, invoke), result),
        call_ensures(syrup_deposit::<E, G>, (&ctx, deposit_amount, other_invoke), other_result),
    ensures
        result matches Err(HandlerError::ConstraintViolation(violation)) && ctx.first_violation(
            violation.rule,
        ),
        result == other_result,
{
    match (result, other_result) {
        (
            Err(HandlerError::ConstraintViolation(violation)),
            Err(HandlerError::ConstraintViolation(other_violation)),
        ) => {
            ctx.lemma_first_violation_is_unique(violation.rule, other_violation.rule);
        },
        _ => {},
    }
}

/// For a satisfied bundle the request ends exactly as the call did: if the
/// function that reaches the lending program can only answer `reply` to the
/// deposit call of this bundle and amount, the caller is told `reply`, with
/// its kind and payload as they came.
pub proof fn lemma_reply_is_returned_unchanged<E, F>(
    ctx: CegaWrapperSyrupDeposit,
    deposit_amount: u64,
    invoke: F,
    reply: Result<(), CallFailure<E>>,
    result: Result<(), HandlerError<E>>,
) where F: FnOnce(LenderDepositCall) -> Result<(), CallFailure<E>>
    requires
        ctx.satisfied(),
        forall|answer: Result<(), CallFailure<E>>| #[trigger]
            call_ensures(invoke, (ctx.lender_deposit_call(deposit_amount),), answer) ==> answer
                == reply,
        call_ensures(syrup_deposit::<E, F>, (&ctx, deposit_amount, invoke), result),
    ensures
        result == propagated(reply),
        reply is Ok ==> result is Ok,
        reply matches Err(CallFailure::ExternalCallFailure(e)) ==> result == Err::<
            (),
            HandlerError<E>,
        >(HandlerError::ExternalCallFailure(e)),
        reply matches Err(CallFailure::PlatformFailure(e)) ==> result == Err::<
            (),
            HandlerError<E>,
        >(HandlerError::PlatformFailure(e)),
{
}

} // verus!
