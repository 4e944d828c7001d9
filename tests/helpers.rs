use fluent_kit::{value, IntoCondition, IntoValueOrFn, ValueOrFn};
use std::cell::Cell;

#[test]
fn value_of_given_value() {
    let r = value(ValueOrFn::<u64, fn() -> u64>::Value(5));
    assert_eq!(r, 5);
}

#[test]
fn value_of_closure_calls_it_once() {
    let calls = Cell::new(0);
    let r = value(ValueOrFn::Closure(|| {
        calls.set(calls.get() + 1);
        "done".to_string()
    }));
    assert_eq!(r, "done");
    assert_eq!(calls.get(), 1);
}

#[test]
fn closure_not_called_until_resolved() {
    let calls = Cell::new(0);
    let lazy = ValueOrFn::Closure(|| {
        calls.set(calls.get() + 1);
        9
    });
    assert_eq!(calls.get(), 0);
    assert_eq!(value(lazy), 9);
    assert_eq!(calls.get(), 1);
}

#[test]
fn into_value_or_fn_forms() {
    let eager: ValueOrFn<i32, fn() -> i32> = IntoValueOrFn::into(ValueOrFn::Value(4));
    assert_eq!(value(eager), 4);
    let lazy = IntoValueOrFn::<i32>::into(|| 6);
    assert_eq!(value(lazy), 6);
}

#[test]
fn conditions_from_bool_and_closure() {
    assert!(true.into_bool());
    assert!(!false.into_bool());
    assert!((|| 2 > 1).into_bool());
}

#[test]
fn when_true_skips_else_branch() {
    let else_calls = Cell::new(0);
    let r = fluent_kit::helpers::when::when(
        true,
        ValueOrFn::<u32, fn() -> u32>::Value(1),
        || {
            else_calls.set(else_calls.get() + 1);
            2
        },
    );
    assert_eq!(r, 1);
    assert_eq!(else_calls.get(), 0);
}

#[test]
fn when_false_skips_then_branch() {
    let then_calls = Cell::new(0);
    let else_calls = Cell::new(0);
    let r = fluent_kit::helpers::when::when(
        false,
        || {
            then_calls.set(then_calls.get() + 1);
            1
        },
        || {
            else_calls.set(else_calls.get() + 1);
            2
        },
    );
    assert_eq!(r, 2);
    assert_eq!(then_calls.get(), 0);
    assert_eq!(else_calls.get(), 1);
}

#[test]
fn when_with_deferred_condition() {
    let cond_calls = Cell::new(0);
    let r = fluent_kit::helpers::when::when(
        || {
            cond_calls.set(cond_calls.get() + 1);
            3 > 4
        },
        || "then".to_string(),
        ValueOrFn::<String, fn() -> String>::Value("else".to_string()),
    );
    assert_eq!(r, "else");
    assert_eq!(cond_calls.get(), 1);
}
