use hft_risk_api::pool::{BufferPool, ObjectPool};

#[test]
fn test_object_pool_basic() {
    let mut pool = ObjectPool::<i32>::new(10);

    let mut guard = pool.acquire().unwrap();
    guard.initialize(42);
    assert_eq!(*guard.get(), 42);

    pool.release(guard);

    let guard2 = pool.acquire();
    assert!(guard2.is_some());
    assert!(pool.available() <= 9);
}

#[test]
fn test_object_pool_exhaustion() {
    let mut pool = ObjectPool::<i32>::new(3);

    let g1 = pool.acquire();
    let g2 = pool.acquire();
    let g3 = pool.acquire();
    let g4 = pool.acquire();

    assert!(g1.is_some());
    assert!(g2.is_some());
    assert!(g3.is_some());
    assert!(g4.is_none());
}

#[test]
fn test_pool_acquire_release() {
    let mut pool = ObjectPool::<i32>::new(5);

    let mut guards: Vec<_> = Vec::new();
    for i in 0..5 {
        let mut guard = pool.acquire().expect("Should acquire");
        guard.initialize(i);
        guards.push(guard);
    }

    assert!(pool.acquire().is_none());

    let last = guards.pop().unwrap();
    pool.release(last);

    assert!(pool.acquire().is_some());
}

#[test]
fn test_pool_capacity() {
    let mut pool = ObjectPool::<String>::new(10);
    assert_eq!(pool.capacity(), 10);
    assert_eq!(pool.available(), 10);

    let _guard = pool.acquire();
    assert_eq!(pool.available(), 9);
}

#[test]
fn test_pool_drain_and_refill_restores_available() {
    let mut pool = ObjectPool::<u8>::new(4);
    let mut guards = Vec::new();
    while let Some(g) = pool.acquire() {
        guards.push(g);
    }
    assert_eq!(guards.len(), 4);
    assert_eq!(pool.available(), 0);
    while let Some(g) = guards.pop() {
        pool.release(g);
    }
    assert_eq!(pool.available(), 4);
}

#[test]
fn test_guard_get_mut() {
    let mut pool = ObjectPool::<i32>::new(2);
    let mut guard = pool.acquire().unwrap();
    guard.initialize(1);
    *guard.get_mut() = 7;
    assert_eq!(*guard.get(), 7);
    pool.release(guard);
}

#[test]
fn test_zero_capacity_pool() {
    let mut pool = ObjectPool::<i32>::new(0);
    assert_eq!(pool.capacity(), 0);
    assert_eq!(pool.available(), 0);
    assert!(pool.acquire().is_none());
}

#[test]
fn test_acquired_indices_are_distinct() {
    let mut pool = ObjectPool::<i32>::new(8);
    let mut seen = Vec::new();
    let mut guards = Vec::new();
    while let Some(g) = pool.acquire() {
        assert!(!seen.contains(&g.index()));
        seen.push(g.index());
        guards.push(g);
    }
    assert_eq!(seen.len(), 8);
    for g in guards {
        pool.release(g);
    }
}

#[test]
fn test_buffer_pool_sizing() {
    let mut buffers = BufferPool::new(2, 2, 2);

    let stats = buffers.stats();
    assert_eq!(stats.small_available, 2);
    assert_eq!(stats.small_capacity, 2);
    assert_eq!(stats.medium_available, 2);
    assert_eq!(stats.medium_capacity, 2);
    assert_eq!(stats.large_available, 2);
    assert_eq!(stats.large_capacity, 2);

    let small = buffers.acquire_buffer(100);
    assert!(small.is_some());
    let medium = buffers.acquire_buffer(2000);
    assert!(medium.is_some());
    let large = buffers.acquire_buffer(200 * 1024);
    assert!(large.is_some());
    let oversize = buffers.acquire_buffer(1024 * 1024);
    assert!(oversize.is_none());

    let stats = buffers.stats();
    assert_eq!(stats.small_available, 1);
    assert_eq!(stats.medium_available, 1);
    assert_eq!(stats.large_available, 1);

    buffers.release_buffer(100, small.unwrap());
    let stats = buffers.stats();
    assert_eq!(stats.small_available, 2);
}

#[test]
fn test_buffer_pool_exhaustion_is_a_signal() {
    let mut buffers = BufferPool::new(1, 0, 0);
    let first = buffers.acquire_buffer(10);
    assert!(first.is_some());
    assert!(buffers.acquire_buffer(10).is_none());
    assert!(buffers.acquire_buffer(5000).is_none());
}
