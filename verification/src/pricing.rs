use vstd::prelude::*;

use crate::engine::{engine_result, run_script};
use crate::limits::Limits;
use crate::verdict::Error;

verus! {

/// The one variable a rule sees: the name being priced.
pub const ACCOUNT_CHARS: &'static str = "account_chars";

/// The price of the name `account_chars` under `rule` and `limits`: what the
/// engine returns for the rule with the name bound to `account_chars`, and
/// `RuleError` for every way in which the rule can be unusable.
pub open spec fn price_for(account_chars: Seq<char>, rule: Seq<char>, limits: Limits) -> Result<i64, Error> {
    match engine_result(
        ACCOUNT_CHARS@,
        account_chars,
        rule,
        limits.operations(),
        limits.expr_depth(),
        limits.string_size(),
        limits.collection_size(),
    ) {
        Some(price) => Ok(price),
        None => Err(Error::RuleError),
    }
}

/// Folds the engine's outcome into the price or the one outward error kind.
pub fn fold_outcome<E>(outcome: Result<i64, E>) -> (r: Result<i64, Error>)
    ensures
        r == (match outcome {
            Ok(price) => Ok::<i64, Error>(price),
            Err(_) => Err::<i64, Error>(Error::RuleError),
        }),
{
    match outcome {
        Ok(price) => Ok(price),
        Err(_) => Err(Error::RuleError),
    }
}

/// Computes the price of `account_chars` under `customized_rule`, run within
/// `limits`.
pub fn calc_price_with_limits(account_chars: &str, customized_rule: &str, limits: &Limits) -> (r: Result<
    i64,
    Error,
>)
    ensures
        r == price_for(account_chars@, customized_rule@, *limits),
{
    let outcome = run_script(
        ACCOUNT_CHARS,
        account_chars,
        customized_rule,
        limits.max_operations(),
        limits.max_expr_depth(),
        limits.max_string_size(),
        limits.max_collection_size(),
    );
    fold_outcome(outcome)
}

/// Computes the price of `account_chars` under `customized_rule`, run within
/// the standard limits.
pub fn calc_price(account_chars: &str, customized_rule: &str) -> (r: Result<i64, Error>)
    ensures
        r == price_for(account_chars@, customized_rule@, Limits::spec_standard()),
{
    let limits = Limits::standard();
    calc_price_with_limits(account_chars, customized_rule, &limits)
}

/// Pricing is a function of the name, the rule and the limits: whenever the
/// same name is priced twice under the same rule and limits, the two outcomes
/// are equal, be they prices or failures.
pub proof fn lemma_price_is_determined(
    account_chars: Seq<char>,
    rule: Seq<char>,
    limits: Limits,
    first: Result<i64, Error>,
    second: Result<i64, Error>,
)
    requires
        first == price_for(account_chars, rule, limits),
        second == price_for(account_chars, rule, limits),
    ensures
        first == second,
{
}

/// However a rule fails, the failure is reported as `RuleError` and as no
/// other kind.
pub proof fn lemma_failure_is_rule_error(account_chars: Seq<char>, rule: Seq<char>, limits: Limits)
    ensures
        price_for(account_chars, rule, limits) matches Err(kind) ==> kind == Error::RuleError,
{
}

} // verus!
