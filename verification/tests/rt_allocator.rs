use fozmo::rt_allocator::{record_callback_allocation, RealtimeCallbackGuard};

#[test]
fn debug_allocator_counts_realtime_callback_allocations() {
    let mut active = false;
    let mut count: u64 = 0;
    count = record_callback_allocation(active, count);
    let before = count;
    {
        let guard = RealtimeCallbackGuard::enter(&mut active);
        count = record_callback_allocation(active, count);
        guard.leave(&mut active);
    }
    assert!(count > before);
    assert!(!active);
    assert_eq!(record_callback_allocation(active, count), count);
}

#[test]
fn nested_callbacks_stay_active() {
    let mut active = false;
    let outer = RealtimeCallbackGuard::enter(&mut active);
    let inner = RealtimeCallbackGuard::enter(&mut active);
    inner.leave(&mut active);
    assert!(active);
    outer.leave(&mut active);
    assert!(!active);
    assert_eq!(record_callback_allocation(true, u64::MAX), 0);
}
