use restate_toolkit::Span;

#[test]
fn spans_hold_what_durations_hold() {
    let span = Span::from_millis(1_234_567);
    assert_eq!(span.as_secs(), 1234);
    assert_eq!(span.subsec_nanos(), 567_000_000);
    assert_eq!(span.as_millis(), 1_234_567);
    assert_eq!(Span::from_nanos(1_000_000_001).subsec_nanos(), 1);
    assert_eq!(Span::new(1, 2_500_000_000), Span::new(3, 500_000_000));
    assert!(Span::zero().is_zero());
    assert_eq!(Span::max_value().as_secs(), u64::MAX);
}

#[test]
fn adding_spans_carries_and_detects_overflow() {
    let sum = Span::new(1, 600_000_000).checked_add(&Span::new(2, 700_000_000)).unwrap();
    assert_eq!(sum, Span::new(4, 300_000_000));
    assert!(Span::max_value().checked_add(&Span::from_nanos(1)).is_none());
}
