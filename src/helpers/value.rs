//! A value, or a one-shot computation that produces it.
use vstd::prelude::*;

verus! {

/// Either a value ready to use, or a computation that produces one when
/// called, once.
pub enum ValueOrFn<T, F> {
    Value(T),
    Closure(F),
}

/// `input` can be resolved: a given value always can, a computation when
/// its precondition holds.
pub open spec fn can_resolve<T, F: FnOnce() -> T>(input: ValueOrFn<T, F>) -> bool {
    match input {
        ValueOrFn::Value(_) => true,
        ValueOrFn::Closure(f) => f.requires(()),
    }
}

/// `r` is a possible result of resolving `input`: the given value itself, or
/// what one call of the computation returns.
pub open spec fn resolves_to<T, F: FnOnce() -> T>(input: ValueOrFn<T, F>, r: T) -> bool {
    match input {
        ValueOrFn::Value(v) => r == v,
        ValueOrFn::Closure(f) => f.ensures((), r),
    }
}

/// Hands back the given value, or calls the computation once and hands back
/// its result.
pub fn value<T, F: FnOnce() -> T>(input: ValueOrFn<T, F>) -> (r: T)
    requires
        can_resolve(input),
    ensures
        resolves_to(input, r),
{
    match input {
        ValueOrFn::Value(val) => val,
        ValueOrFn::Closure(f) => f(),
    }
}

/// What can stand where a lazily resolved `T` is expected.
pub trait IntoValueOrFn<T>: Sized {
    /// The computation type carried by the converted form.
    type Thunk: FnOnce() -> T;

    /// The converted form of `self`.
    spec fn lazy_form(self) -> ValueOrFn<T, Self::Thunk>;

    fn into(self) -> (r: ValueOrFn<T, Self::Thunk>)
        ensures
            r == self.lazy_form(),
    ;
}

impl<T, F: FnOnce() -> T> IntoValueOrFn<T> for F {
    type Thunk = F;

    open spec fn lazy_form(self) -> ValueOrFn<T, F> {
        ValueOrFn::Closure(self)
    }

    fn into(self) -> (r: ValueOrFn<T, F>) {
        ValueOrFn::Closure(self)
    }
}

impl<T, F: FnOnce() -> T> IntoValueOrFn<T> for ValueOrFn<T, F> {
    type Thunk = F;

    open spec fn lazy_form(self) -> ValueOrFn<T, F> {
        self
    }

    fn into(self) -> (r: ValueOrFn<T, F>) {
        self
    }
}

/// What can stand as a condition: a `bool`, or a computation giving one.
pub trait IntoCondition: Sized {
    /// The condition can be evaluated.
    spec fn condition_ready(self) -> bool;

    /// `b` is a possible outcome of evaluating the condition.
    spec fn condition_gives(self, b: bool) -> bool;

    fn into_bool(self) -> (r: bool)
        requires
            self.condition_ready(),
        ensures
            self.condition_gives(r),
    ;
}

impl IntoCondition for bool {
    open spec fn condition_ready(self) -> bool {
        true
    }

    open spec fn condition_gives(self, b: bool) -> bool {
        b == self
    }

    fn into_bool(self) -> (r: bool) {
        self
    }
}

impl<F: FnOnce() -> bool> IntoCondition for F {
    open spec fn condition_ready(self) -> bool {
        self.requires(())
    }

    open spec fn condition_gives(self, b: bool) -> bool {
        self.ensures((), b)
    }

    fn into_bool(self) -> (r: bool) {
        self()
    }
}

} // verus!
