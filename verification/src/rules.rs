//! The table of relationship rules.

use vstd::prelude::*;

verus! {

/// Number of rules in the table.
pub const RULE_COUNT: u8 = 9;

/// One relationship that a bundle of accounts must satisfy. Each rule is named
/// after the slot that it guards.
#[derive(Clone, Copy, Debug, PartialEq, Eq, Structural)]
pub enum Rule {
    /// The caller signed the request and owns the lender position.
    LenderUser,
    /// The pool is the one that the lender position is in.
    Pool,
    /// The configuration is the one that the pool belongs to.
    Globals,
    /// The asset-holding account is the pool's own.
    PoolLocker,
    /// The base mint is the pool's.
    BaseMint,
    /// The shares mint is the pool's.
    SharesMint,
    /// The locked-shares account is the lender position's.
    LockedShares,
    /// The lender-shares account is the lender position's.
    LenderShares,
    /// The depositor's token account belongs to the caller and holds the pool's
    /// base asset.
    LenderLocker,
}

impl Rule {
    /// The place of the rule in the table, counted from one. Rules are
    /// evaluated in this order.
    pub open spec fn ordinal(self) -> int {
        match self {
            Rule::LenderUser => 1,
            Rule::Pool => 2,
            Rule::Globals => 3,
            Rule::PoolLocker => 4,
            Rule::BaseMint => 5,
            Rule::SharesMint => 6,
            Rule::LockedShares => 7,
            Rule::LenderShares => 8,
            Rule::LenderLocker => 9,
        }
    }

    /// The place of the rule in the table, counted from one.
    pub fn number(&self) -> (n: u8)
        ensures
            n == self.ordinal(),
            1 <= n <= RULE_COUNT,
    {
        match self {
            Rule::LenderUser => 1,
            Rule::Pool => 2,
            Rule::Globals => 3,
            Rule::PoolLocker => 4,
            Rule::BaseMint => 5,
            Rule::SharesMint => 6,
            Rule::LockedShares => 7,
            Rule::LenderShares => 8,
            Rule::LenderLocker => 9,
        }
    }

    /// The rule at place `n` of the table, if the table has such a place.
    pub fn from_number(n: u8) -> (rule: Option<Rule>)
        ensures
            rule is Some <==> 1 <= n <= RULE_COUNT,
            rule matches Some(found) ==> found.ordinal() == n,
    {
        match n {
            1 => Some(Rule::LenderUser),
            2 => Some(Rule::Pool),
            3 => Some(Rule::Globals),
            4 => Some(Rule::PoolLocker),
            5 => Some(Rule::BaseMint),
            6 => Some(Rule::SharesMint),
            7 => Some(Rule::LockedShares),
            8 => Some(Rule::LenderShares),
            9 => Some(Rule::LenderLocker),
            _ => None,
        }
    }

    /// Every rule has a place between one and the length of the table, and no
    /// two rules share a place.
    pub proof fn lemma_ordinal_identifies(self, other: Rule)
        ensures
            1 <= self.ordinal() <= RULE_COUNT,
            self.ordinal() == other.ordinal() ==> self == other,
    {
    }
}

/// A relationship rule that a bundle failed.
#[derive(Clone, Copy, Debug, PartialEq, Eq, Structural)]
pub struct ConstraintViolation {
    /// The rule that did not hold.
    pub rule: Rule,
}

} // verus!
