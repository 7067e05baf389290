use accel::{status_to_result, AccelError, Context, ContextFault, ContextGuard, ContextStack, Device};

#[test]
fn get_zeroth() {
    let device = Device::nth(0, 1).unwrap();
    assert_eq!(device.id(), 0);
}

#[test]
fn out_of_range() {
    assert!(Device::nth(129, 1).is_err());
}

#[test]
fn out_of_range_reports_index_and_count() {
    assert_eq!(Device::nth(129, 4), Err(AccelError::DeviceNotFound { id: 129, count: 4 }));
    assert_eq!(Device::nth(4, 4), Err(AccelError::DeviceNotFound { id: 4, count: 4 }));
    assert_eq!(Device::nth(0, 0), Err(AccelError::DeviceNotFound { id: 0, count: 0 }));
}

#[test]
fn every_index_below_count_is_found() {
    for i in 0..8usize {
        assert_eq!(Device::nth(i, 8).unwrap().id(), i);
    }
}

#[test]
fn create() {
    let ctx = Context::create(0x7f00_1000, 0x7f00_1000).unwrap();
    assert_eq!(ctx.handle(), 0x7f00_1000);
}

#[test]
fn create_refuses_null_and_foreign_pops() {
    assert_eq!(Context::create(0, 0).unwrap_err(), ContextFault::NullContext);
    assert_eq!(Context::create(0x10, 0).unwrap_err(), ContextFault::NoCurrentContext);
    assert_eq!(
        Context::create(0x10, 0x20).unwrap_err(),
        ContextFault::PopMismatch { expected: 0x10, popped: 0x20 }
    );
}

#[test]
fn guard_round_trip_restores_stack() {
    let outer = Context::create(0x100, 0x100).unwrap();
    let inner = Context::create(0x200, 0x200).unwrap();
    let mut stack = ContextStack::new();
    let g0 = ContextGuard::guard_context(&mut stack, &outer);
    assert_eq!(stack.current(), Some(0x100));
    let g1 = ContextGuard::guard_context(&mut stack, &inner);
    assert_eq!(g1.context_handle(), 0x200);
    assert_eq!(stack.depth(), 2);
    assert_eq!(stack.current(), Some(0x200));
    assert_eq!(g1.release(&mut stack, 0x200), Ok(()));
    assert_eq!(stack.depth(), 1);
    assert_eq!(stack.current(), Some(0x100));
    assert_eq!(g0.release(&mut stack, 0x100), Ok(()));
    assert_eq!(stack.depth(), 0);
    assert_eq!(stack.current(), None);
}

#[test]
fn guard_release_faults() {
    let a = Context::create(0x100, 0x100).unwrap();
    let b = Context::create(0x200, 0x200).unwrap();
    let mut stack = ContextStack::new();
    let ga = ContextGuard::guard_context(&mut stack, &a);
    let gb = ContextGuard::guard_context(&mut stack, &b);
    // released before the guard acquired after it
    assert_eq!(ga.release(&mut stack, 0x100), Err(ContextFault::OutOfOrder));
    assert_eq!(stack.depth(), 2);
    let gb2 = ContextGuard::guard_context(&mut stack, &b);
    assert_eq!(gb2.release(&mut stack, 0), Err(ContextFault::NoCurrentContext));
    assert_eq!(
        gb.release(&mut stack, 0x300),
        Err(ContextFault::PopMismatch { expected: 0x200, popped: 0x300 })
    );
    assert_eq!(stack.depth(), 3);
}

#[test]
fn status_codes() {
    assert_eq!(status_to_result(0), Ok(()));
    // an assertion that failed inside a kernel is reported on synchronization
    assert_eq!(status_to_result(710), Err(AccelError::Cuda { code: 710 }));
    assert_eq!(status_to_result(2), Err(AccelError::Cuda { code: 2 }));
}
