use stack_pool::{InstanceLimits, PoolError, PoolingInstanceAllocatorConfig, StackPool};

fn pool(stack_size: usize, total_stacks: u32) -> StackPool {
    StackPool::new(&PoolingInstanceAllocatorConfig {
        stack_size,
        limits: InstanceLimits { total_stacks },
    })
}

#[test]
fn new_pool_is_empty() {
    let p = pool(4096, 2);
    assert!(p.is_empty());
    assert_eq!(p.live_count(), 0);
}

#[test]
fn limit_two_scenario() {
    let p = pool(4096, 2);

    let a = p.allocate().expect("first stack");
    assert_eq!(p.live_count(), 1);
    assert!(!p.is_empty());

    let b = p.allocate().expect("second stack");
    assert_eq!(p.live_count(), 2);

    match p.allocate() {
        Err(PoolError::LimitExceeded { limit }) => assert_eq!(limit, 2),
        other => panic!("expected the limit to hold, got {:?}", other.map(|_| ())),
    }
    assert_eq!(p.live_count(), 2);

    p.deallocate(a);
    assert_eq!(p.live_count(), 1);

    let d = p.allocate().expect("a stack after one was handed back");
    assert_eq!(p.live_count(), 2);

    p.deallocate(b);
    p.deallocate(d);
    assert_eq!(p.live_count(), 0);
    assert!(p.is_empty());
}

#[test]
fn zero_stack_size_is_unsupported_every_time() {
    let p = pool(0, 8);
    for _ in 0..5 {
        assert!(matches!(p.allocate(), Err(PoolError::UnsupportedConfiguration)));
        assert_eq!(p.live_count(), 0);
        assert!(p.is_empty());
    }
}

#[test]
fn zero_stack_size_wins_over_zero_limit() {
    let p = pool(0, 0);
    assert!(matches!(p.allocate(), Err(PoolError::UnsupportedConfiguration)));
    assert_eq!(p.live_count(), 0);
}

#[test]
fn zero_limit_refuses_every_call() {
    let p = pool(4096, 0);
    for _ in 0..3 {
        assert!(matches!(p.allocate(), Err(PoolError::LimitExceeded { limit: 0 })));
        assert_eq!(p.live_count(), 0);
    }
    assert!(p.is_empty());
}

#[test]
fn limit_is_taken_from_the_configuration() {
    let p = pool(4096, 1);
    let a = p.allocate().expect("the one stack");
    assert!(matches!(p.allocate(), Err(PoolError::LimitExceeded { limit: 1 })));
    assert!(matches!(p.allocate(), Err(PoolError::LimitExceeded { limit: 1 })));
    assert_eq!(p.live_count(), 1);
    p.deallocate(a);
    assert!(p.is_empty());
}

#[test]
fn stack_has_the_configured_size() {
    let p = pool(64 * 1024, 1);
    let stack = p.allocate().expect("a stack");
    let range = stack.range().expect("a mapped stack knows its range");
    assert!(range.end - range.start >= 64 * 1024);
    p.deallocate(stack);
}

#[test]
fn failed_allocation_does_not_count() {
    // No machine maps half of its address space for one stack.
    let p = pool(isize::MAX as usize, 4);
    assert!(p.is_empty());
    for _ in 0..6 {
        match p.allocate() {
            Err(PoolError::AllocationFailed(e)) => assert!(e.raw_os_error().is_some()),
            other => panic!("expected the allocator to fail, got {:?}", other.map(|_| ())),
        }
        assert_eq!(p.live_count(), 0);
    }
    assert!(p.is_empty());
}

#[test]
fn count_follows_stacks_in_hand() {
    let p = pool(8192, 5);
    let mut held = Vec::new();
    for round in 0..4 {
        while held.len() < 5 {
            held.push(p.allocate().expect("room left"));
            assert_eq!(p.live_count(), held.len() as u64);
        }
        assert!(matches!(p.allocate(), Err(PoolError::LimitExceeded { limit: 5 })));
        assert_eq!(p.live_count(), 5);
        for _ in 0..=round {
            p.deallocate(held.pop().expect("a stack in hand"));
            assert_eq!(p.live_count(), held.len() as u64);
        }
    }
    while let Some(stack) = held.pop() {
        p.deallocate(stack);
    }
    assert!(p.is_empty());
}
