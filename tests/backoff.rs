use reverse_ssh_core::backoff::Backoff;

#[test]
fn test_backoff_delays() {
    let mut backoff = Backoff::new().with_initial_delay(1000).with_multiplier(2);

    assert_eq!(backoff.next_delay(), Some(1000));
    assert_eq!(backoff.next_delay(), Some(2000));
    assert_eq!(backoff.next_delay(), Some(4000));
}

#[test]
fn test_backoff_max_delay() {
    let mut backoff = Backoff::new()
        .with_initial_delay(100_000)
        .with_max_delay(200_000)
        .with_multiplier(2);

    assert_eq!(backoff.next_delay(), Some(100_000));
    assert_eq!(backoff.next_delay(), Some(200_000));
    assert_eq!(backoff.next_delay(), Some(200_000));
}

#[test]
fn test_backoff_max_attempts() {
    let mut backoff = Backoff::new().with_max_attempts(3);

    assert!(backoff.next_delay().is_some());
    assert!(backoff.next_delay().is_some());
    assert!(backoff.next_delay().is_some());
    assert!(backoff.next_delay().is_none());
    assert!(backoff.is_exhausted());
}

#[test]
fn test_backoff_reset() {
    let mut backoff = Backoff::new().with_max_attempts(2);

    backoff.next_delay();
    backoff.next_delay();
    assert!(backoff.is_exhausted());

    backoff.reset();
    assert!(!backoff.is_exhausted());
    assert_eq!(backoff.attempt(), 0);
}

#[test]
fn first_five_delays_double() {
    let mut b = Backoff::new().with_initial_delay(1000).with_max_delay(200_000).with_multiplier(2);
    let got: Vec<Option<u64>> = (0..5).map(|_| b.next_delay()).collect();
    assert_eq!(got, vec![Some(1000), Some(2000), Some(4000), Some(8000), Some(16000)]);
}

#[test]
fn reset_restores_initial_delay() {
    let mut b = Backoff::new().with_initial_delay(1000).with_multiplier(2);
    b.next_delay();
    b.next_delay();
    assert_eq!(b.calculate_delay(), 4000);
    b.reset();
    assert_eq!(b.next_delay(), Some(1000));
}

#[test]
fn cap_holds_for_many_attempts() {
    let mut b = Backoff::new().with_initial_delay(u64::MAX).with_multiplier(u32::MAX);
    assert_eq!(b.next_delay(), Some(300_000));
    for _ in 0..100 {
        assert_eq!(b.next_delay(), Some(300_000));
    }
}
