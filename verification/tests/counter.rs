use waitgroup::counter::Counter;
use waitgroup::counter::Phase;
use waitgroup::error::WaitGroupError;

#[test]
fn new_counter_is_zero_and_idle() {
    let counter = Counter::new();
    assert_eq!(counter.value(), Some(0));
    assert_eq!(counter.phase(), Ok(Phase::Idle));
    assert!(!counter.is_active());
}

#[test]
fn add_reports_the_phase_reached() {
    let mut counter = Counter::new();
    assert_eq!(counter.add(2), Ok(Phase::Active));
    assert_eq!(counter.value(), Some(2));
    assert_eq!(counter.phase(), Ok(Phase::Active));
    assert!(counter.is_active());
    assert_eq!(counter.add(-1), Ok(Phase::Active));
    assert_eq!(counter.value(), Some(1));
    assert_eq!(counter.add(-1), Ok(Phase::Idle));
    assert_eq!(counter.value(), Some(0));
    assert_eq!(counter.phase(), Ok(Phase::Idle));
    assert!(!counter.is_active());
}

#[test]
fn adding_zero_reports_the_phase_as_it_is() {
    let mut counter = Counter::new();
    assert_eq!(counter.add(0), Ok(Phase::Idle));
    assert_eq!(counter.value(), Some(0));
    assert_eq!(counter.add(7), Ok(Phase::Active));
    assert_eq!(counter.add(0), Ok(Phase::Active));
    assert_eq!(counter.value(), Some(7));
}

#[test]
fn done_takes_one_off() {
    let mut counter = Counter::new();
    assert_eq!(counter.add(2), Ok(Phase::Active));
    assert_eq!(counter.done(), Ok(Phase::Active));
    assert_eq!(counter.value(), Some(1));
    assert_eq!(counter.done(), Ok(Phase::Idle));
    assert_eq!(counter.value(), Some(0));
}

#[test]
fn done_at_zero_fails_the_counter() {
    let mut counter = Counter::new();
    assert_eq!(counter.done(), Err(WaitGroupError::NegativeCounter));
    assert_eq!(counter.value(), None);
    assert_eq!(counter.phase(), Err(WaitGroupError::Poisoned));
    assert!(!counter.is_active());
    assert_eq!(counter.done(), Err(WaitGroupError::Poisoned));
}

#[test]
fn sum_below_zero_fails_the_counter() {
    let mut counter = Counter::new();
    assert_eq!(counter.add(5), Ok(Phase::Active));
    assert_eq!(counter.add(-6), Err(WaitGroupError::NegativeCounter));
    assert_eq!(counter.value(), None);
    assert_eq!(counter.phase(), Err(WaitGroupError::Poisoned));
    assert!(!counter.is_active());
    let mut counter = Counter::new();
    assert_eq!(counter.add(5), Ok(Phase::Active));
    assert_eq!(counter.add(i64::MIN), Err(WaitGroupError::NegativeCounter));
    assert_eq!(counter.value(), None);
}

#[test]
fn sum_above_the_largest_value_fails_the_counter() {
    let mut counter = Counter::new();
    assert_eq!(counter.add(i64::MAX), Ok(Phase::Active));
    assert_eq!(counter.value(), Some(i64::MAX));
    assert_eq!(counter.add(-1), Ok(Phase::Active));
    assert_eq!(counter.add(2), Err(WaitGroupError::Overflow));
    assert_eq!(counter.value(), None);
    assert_eq!(counter.phase(), Err(WaitGroupError::Poisoned));
    assert_eq!(counter.add(-2), Err(WaitGroupError::Poisoned));
}

#[test]
fn failed_counter_refuses_every_addition() {
    let mut counter = Counter::new();
    assert_eq!(counter.add(3), Ok(Phase::Active));
    assert_eq!(counter.add(-4), Err(WaitGroupError::NegativeCounter));
    let deltas: [i64; 7] = [0, 1, -1, 4, i64::MAX, i64::MIN, -3];
    for delta in deltas {
        assert_eq!(counter.add(delta), Err(WaitGroupError::Poisoned));
        assert_eq!(counter.value(), None);
        assert_eq!(counter.phase(), Err(WaitGroupError::Poisoned));
    }
    assert_eq!(counter.done(), Err(WaitGroupError::Poisoned));
}

#[test]
fn balanced_sequence_ends_idle() {
    let mut counter = Counter::new();
    let deltas: [i64; 6] = [4, -1, 3, -2, -3, -1];
    let mut sum: i64 = 0;
    for delta in deltas {
        sum += delta;
        let expected = if sum == 0 { Phase::Idle } else { Phase::Active };
        assert_eq!(counter.add(delta), Ok(expected));
        assert_eq!(counter.value(), Some(sum));
    }
    assert_eq!(counter.value(), Some(0));
    assert_eq!(counter.phase(), Ok(Phase::Idle));
    assert!(!counter.is_active());
}

#[test]
fn first_negative_running_sum_fails() {
    let mut counter = Counter::new();
    assert_eq!(counter.add(1), Ok(Phase::Active));
    assert_eq!(counter.add(2), Ok(Phase::Active));
    assert_eq!(counter.value(), Some(3));
    assert_eq!(counter.add(-4), Err(WaitGroupError::NegativeCounter));
    assert_eq!(counter.value(), None);
    assert_eq!(counter.add(4), Err(WaitGroupError::Poisoned));
}

#[test]
fn round_after_round_starts_from_zero() {
    let mut counter = Counter::new();
    for _ in 0..3 {
        assert_eq!(counter.add(1), Ok(Phase::Active));
        assert_eq!(counter.done(), Ok(Phase::Idle));
        assert_eq!(counter.value(), Some(0));
        assert!(!counter.is_active());
    }
}

#[test]
fn messages_name_the_cause() {
    assert_eq!(WaitGroupError::NegativeCounter.message(), "negative WaitGroup counter");
    assert_eq!(WaitGroupError::Overflow.message(), "WaitGroup counter overflow");
    assert_eq!(WaitGroupError::Poisoned.message(), "poisoned WaitGroup");
}
