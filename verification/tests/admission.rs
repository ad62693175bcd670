use stack_pool::admission::{check_limit, conclude, reads_empty};
use stack_pool::PoolError;
use wasmtime_fiber::FiberStack;

#[test]
fn below_the_limit_is_admitted() {
    assert!(matches!(check_limit(2, 0), Ok(())));
    assert!(matches!(check_limit(2, 1), Ok(())));
    assert!(matches!(check_limit(u64::MAX, u64::MAX - 1), Ok(())));
}

#[test]
fn at_the_limit_is_refused() {
    assert!(matches!(check_limit(2, 2), Err(PoolError::LimitExceeded { limit: 2 })));
    assert!(matches!(check_limit(0, 0), Err(PoolError::LimitExceeded { limit: 0 })));
    assert!(matches!(
        check_limit(u64::MAX, u64::MAX),
        Err(PoolError::LimitExceeded { limit: u64::MAX })
    ));
}

#[test]
fn above_the_limit_is_refused() {
    assert!(matches!(check_limit(2, 3), Err(PoolError::LimitExceeded { limit: 2 })));
    assert!(matches!(check_limit(1, u64::MAX), Err(PoolError::LimitExceeded { limit: 1 })));
}

#[test]
fn conclude_passes_the_stack_on() {
    let stack = FiberStack::new(4096).expect("a stack");
    let range = stack.range();
    match conclude(Ok(stack)) {
        Ok(same) => assert_eq!(same.range(), range),
        Err(e) => panic!("a stack was turned into {:?}", e),
    }
}

#[test]
fn conclude_wraps_the_allocator_error() {
    let failure = std::io::Error::from_raw_os_error(12);
    match conclude(Err(failure)) {
        Err(PoolError::AllocationFailed(e)) => assert_eq!(e.raw_os_error(), Some(12)),
        other => panic!("expected a wrapped error, got {:?}", other.map(|_| ())),
    }
}

#[test]
fn only_a_zero_reading_shows_empty() {
    assert!(reads_empty(0));
    assert!(!reads_empty(1));
    assert!(!reads_empty(2));
    assert!(!reads_empty(u64::MAX));
}
