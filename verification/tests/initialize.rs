use syrup_relay::{
    sryup_deposit_init, Account, Address, CallFailure, CegaWrapperSyrupDepositInitialize,
    ConstraintViolation, HandlerError, LenderInitializeCall, Pool, Rule, UncheckedAccount,
};

fn address(tag: u8) -> Address {
    Address::new([tag; 32])
}

fn opening_bundle() -> CegaWrapperSyrupDepositInitialize {
    CegaWrapperSyrupDepositInitialize {
        payer: address(1),
        owner: UncheckedAccount { key: address(2) },
        pool: Account {
            key: address(3),
            data: Pool {
                globals: address(20),
                base_mint: address(21),
                locker: address(22),
                shares_mint: address(4),
            },
        },
        shares_mint: address(4),
        lender: UncheckedAccount { key: address(5) },
        locked_shares: UncheckedAccount { key: address(6) },
        lender_shares: UncheckedAccount { key: address(7) },
        system_program: address(8),
        token_program: address(9),
        associated_token_program: address(10),
        rent: address(11),
        syrup: address(12),
    }
}

fn open(
    ctx: &CegaWrapperSyrupDepositInitialize,
    reply: Result<(), CallFailure<u32>>,
) -> (Result<(), HandlerError<u32>>, Vec<LenderInitializeCall>) {
    let mut calls: Vec<LenderInitializeCall> = Vec::new();
    let result = sryup_deposit_init(ctx, |call| {
        calls.push(call);
        reply
    });
    (result, calls)
}

#[test]
fn matching_shares_mint_forwards_one_call() {
    let ctx = opening_bundle();
    assert_eq!(ctx.validate(), Ok(()));
    let (result, calls) = open(&ctx, Ok(()));
    assert_eq!(result, Ok(()));
    assert_eq!(calls.len(), 1);
    assert_eq!(calls[0], ctx.lender_initialize());
}

#[test]
fn initialize_call_names_the_accounts_of_the_bundle() {
    let call = opening_bundle().lender_initialize();
    assert_eq!(call.program, address(12));
    assert_eq!(call.accounts.payer, address(1));
    assert_eq!(call.accounts.owner, address(2));
    assert_eq!(call.accounts.pool, address(3));
    assert_eq!(call.accounts.shares_mint, address(4));
    assert_eq!(call.accounts.lender, address(5));
    assert_eq!(call.accounts.locked_shares, address(6));
    assert_eq!(call.accounts.lender_shares, address(7));
    assert_eq!(call.accounts.system_program, address(8));
    assert_eq!(call.accounts.token_program, address(9));
    assert_eq!(call.accounts.associated_token_program, address(10));
    assert_eq!(call.accounts.rent, address(11));
}

#[test]
fn mismatched_shares_mint_is_rejected_before_any_call() {
    let mut ctx = opening_bundle();
    ctx.shares_mint = address(99);
    assert_eq!(ctx.validate(), Err(ConstraintViolation { rule: Rule::SharesMint }));
    let (result, calls) = open(&ctx, Ok(()));
    assert_eq!(
        result,
        Err(HandlerError::ConstraintViolation(ConstraintViolation { rule: Rule::SharesMint }))
    );
    assert!(calls.is_empty());
}

#[test]
fn owner_is_accepted_whatever_it_is() {
    let mut ctx = opening_bundle();
    ctx.owner = UncheckedAccount { key: address(0) };
    ctx.lender = UncheckedAccount { key: address(0) };
    ctx.locked_shares = UncheckedAccount { key: address(0) };
    ctx.lender_shares = UncheckedAccount { key: address(0) };
    assert_eq!(ctx.validate(), Ok(()));
    let (result, calls) = open(&ctx, Ok(()));
    assert_eq!(result, Ok(()));
    assert_eq!(calls.len(), 1);
    assert_eq!(calls[0].accounts.owner, address(0));
}

#[test]
fn initialize_validation_gives_the_same_outcome_when_repeated() {
    let ctx = opening_bundle();
    assert_eq!(ctx.validate(), ctx.validate());
    let mut other = opening_bundle();
    other.pool.data.shares_mint = address(50);
    assert_eq!(other.validate(), other.validate());
    assert!(other.validate().is_err());
}

#[test]
fn initialize_failure_of_the_lending_program_is_returned_unchanged() {
    let ctx = opening_bundle();
    let (result, calls) = open(&ctx, Err(CallFailure::ExternalCallFailure(6000)));
    assert_eq!(result, Err(HandlerError::ExternalCallFailure(6000)));
    assert_eq!(calls.len(), 1);
}

#[test]
fn initialize_failure_of_the_environment_is_returned_unchanged() {
    let ctx = opening_bundle();
    let (result, calls) = open(&ctx, Err(CallFailure::PlatformFailure(4)));
    assert_eq!(result, Err(HandlerError::PlatformFailure(4)));
    assert_eq!(calls.len(), 1);
}
