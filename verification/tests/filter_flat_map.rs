use lint_rules::filter_flat_map::check;
use lint_rules::span::Span;

#[test]
fn chain_on_iterator_draws_advice() {
    let advice = check(Span::new(10, 42), true).expect("advice");
    assert_eq!(advice.span, Span::new(10, 42));
    assert_eq!(advice.message, "called `filter(..).flat_map(..)` on an `Iterator`");
    assert_eq!(
        advice.help,
        "this is more succinctly expressed by calling `.flat_map(..)` and filtering by returning `iter::empty()`"
    );
}

#[test]
fn chain_on_other_receiver_draws_nothing() {
    assert!(check(Span::new(10, 42), false).is_none());
}
