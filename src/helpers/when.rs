//! Choosing between two lazily resolved values.
use vstd::prelude::*;
use crate::helpers::value::{value, can_resolve, resolves_to, IntoValueOrFn, IntoCondition};

verus! {

/// Evaluates `condition`, then resolves `value_expr` if it held and
/// `default_expr` if not. The branch not chosen is never resolved.
pub fn when<T, C, V, D>(condition: C, value_expr: V, default_expr: D) -> (r: T)
    where
        C: IntoCondition,
        V: IntoValueOrFn<T>,
        D: IntoValueOrFn<T>,
    requires
        condition.condition_ready(),
        forall|b: bool| #[trigger] condition.condition_gives(b) ==>
            (b ==> can_resolve(value_expr.lazy_form())) && (!b ==> can_resolve(default_expr.lazy_form())),
    ensures
        exists|b: bool| #[trigger] condition.condition_gives(b) &&
            (b ==> resolves_to(value_expr.lazy_form(), r)) && (!b ==> resolves_to(default_expr.lazy_form(), r)),
{
    let b = condition.into_bool();
    if b {
        value(value_expr.into())
    } else {
        value(default_expr.into())
    }
}

/// With a plain `bool` condition, what `when` returns is the resolution of
/// the first branch where the condition is true and of the second where it is
/// false.
pub proof fn lemma_when_on_bool<T, V, D>(condition: bool, value_expr: V, default_expr: D, r: T)
    where
        V: IntoValueOrFn<T>,
        D: IntoValueOrFn<T>,
    requires
        exists|b: bool| #[trigger] condition.condition_gives(b) &&
            (b ==> resolves_to(value_expr.lazy_form(), r)) && (!b ==> resolves_to(default_expr.lazy_form(), r)),
    ensures
        condition ==> resolves_to(value_expr.lazy_form(), r),
        !condition ==> resolves_to(default_expr.lazy_form(), r),
{
}

} // verus!
