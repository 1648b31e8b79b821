use rust_hkt::part2::{double_in_context, Functor};
use std::cell::Cell;

fn double_generic<F>(f: F) -> F::T
where
    F: Functor<i32, C = i32>,
{
    f.fmap(|i| i * 2)
}

fn length_generic<F>(f: F) -> F::T
where
    F: Functor<usize, C = String>,
{
    f.fmap(|s| s.len())
}

#[test]
fn fmap_doubles_present_value() {
    assert_eq!(Some(2), Some(1).fmap(|i| i * 2));
}

#[test]
fn fmap_keeps_absent() {
    let absent: Option<i32> = None;
    let out: Option<i32> = absent.fmap(|i| i * 2);
    assert_eq!(out, None);
}

#[test]
fn fmap_does_not_call_function_on_absent() {
    let calls = Cell::new(0u32);
    let absent: Option<i32> = None;
    let out: Option<i32> = absent.fmap(|i| {
        calls.set(calls.get() + 1);
        *i
    });
    assert_eq!(out, None);
    assert_eq!(calls.get(), 0);
}

#[test]
fn fmap_calls_function_once_on_present() {
    let calls = Cell::new(0u32);
    let out: Option<i32> = Some(5).fmap(|i| {
        calls.set(calls.get() + 1);
        *i + 1
    });
    assert_eq!(out, Some(6));
    assert_eq!(calls.get(), 1);
}

#[test]
fn fmap_changes_element_type() {
    let out: Option<String> = Some(12).fmap(|i: &i32| format!("{}", i));
    assert_eq!(out, Some(String::from("12")));
    let len: Option<usize> = Some(String::from("abc")).fmap(|s: &String| s.len());
    assert_eq!(len, Some(3));
}

#[test]
fn fmap_leaves_input_untouched() {
    let input = Some(String::from("kept"));
    let out: Option<usize> = input.fmap(|s: &String| s.len());
    assert_eq!(out, Some(4));
    assert_eq!(input, Some(String::from("kept")));
}

#[test]
fn identity_law_present_and_absent() {
    for x in [Some(0i64), Some(-7), Some(i64::MAX), None] {
        let out: Option<i64> = x.fmap(|a| *a);
        assert_eq!(out, x);
    }
}

#[test]
fn composition_law_present_and_absent() {
    let f = |a: &i32| i64::from(*a) + 3;
    let g = |b: &i64| format!("<{}>", b);
    for x in [Some(1i32), Some(-3), Some(i32::MAX), None] {
        let step: Option<i64> = x.fmap(f);
        let chained: Option<String> = step.fmap(g);
        let at_once: Option<String> = x.fmap(|a: &i32| g(&f(a)));
        assert_eq!(chained, at_once);
    }
    let chained: Option<String> = Functor::<String>::fmap(&Functor::<i64>::fmap(&Some(1i32), f), g);
    assert_eq!(chained, Some(String::from("<4>")));
}

#[test]
fn shape_is_preserved_whatever_the_function() {
    let constant: Option<u8> = Some(41u8).fmap(|_| 0u8);
    assert!(constant.is_some());
    let nested: Option<Option<u8>> = Some(41u8).fmap(|_| None);
    assert_eq!(nested, Some(None));
    let absent: Option<u8> = None;
    let from_absent: Option<Option<u8>> = absent.fmap(|a| Some(*a));
    assert!(from_absent.is_none());
}

#[test]
fn generic_function_transforms_once() {
    assert_eq!(double_generic(Some(1)), Some(2));
    assert_eq!(double_generic(None::<i32>), None);
    assert_eq!(length_generic(Some(String::from("four"))), Some(4));
}

#[test]
fn double_in_context_doubles() {
    assert_eq!(double_in_context(Some(1)), Some(2));
    assert_eq!(double_in_context(Some(-21)), Some(-42));
    assert_eq!(double_in_context(Some(0)), Some(0));
    assert_eq!(double_in_context(Some(i32::MAX / 2)), Some(i32::MAX - 1));
    assert_eq!(double_in_context(Some(i32::MIN / 2)), Some(i32::MIN));
    assert_eq!(double_in_context(None::<i32>), None);
}
