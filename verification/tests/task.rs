use wasi_runtime::task::{
    BackendAction, ExecutionKind, MemoryMode, SchedulingError, SpawnDescriptor, UnitOutcome,
    VirtualTaskManager,
};

fn blocking(payload: u64) -> SpawnDescriptor {
    SpawnDescriptor { execution: ExecutionKind::Blocking, memory: MemoryMode::Dedicated, payload }
}

fn cooperative(payload: u64) -> SpawnDescriptor {
    SpawnDescriptor { execution: ExecutionKind::Cooperative, memory: MemoryMode::Shared, payload }
}

#[test]
fn dispatch_is_exhaustive_over_both_axes() {
    let d = |execution, memory| SpawnDescriptor { execution, memory, payload: 0 };
    assert_eq!(
        d(ExecutionKind::Blocking, MemoryMode::Dedicated).action(),
        BackendAction::IsolatedThread
    );
    assert_eq!(
        d(ExecutionKind::Blocking, MemoryMode::Shared).action(),
        BackendAction::SharedMemoryThread
    );
    assert_eq!(
        d(ExecutionKind::Cooperative, MemoryMode::Dedicated).action(),
        BackendAction::IsolatedTask
    );
    assert_eq!(
        d(ExecutionKind::Cooperative, MemoryMode::Shared).action(),
        BackendAction::SharedMemoryTask
    );
}

#[test]
fn spawn_gives_fresh_ids() {
    let mut m = VirtualTaskManager::new(8);
    let a = m.spawn(blocking(10)).unwrap();
    let b = m.spawn(cooperative(20)).unwrap();
    assert_eq!(a, 0);
    assert_eq!(b, 1);
    assert_eq!(m.in_use(), 2);
}

#[test]
fn spawn_fails_fast_when_capacity_exhausted() {
    let mut m = VirtualTaskManager::new(1);
    let id = m.spawn(blocking(1)).unwrap();
    assert_eq!(m.spawn(blocking(2)), Err(SchedulingError::CapacityExhausted));

    // Once the unit is finished and its completion observed, the slot's
    // resources are reclaimed and spawning works again.
    assert!(m.finish(id, UnitOutcome::Success(0)));
    assert_eq!(m.take_completion(id), Some(UnitOutcome::Success(0)));
    assert!(m.spawn(blocking(3)).is_ok());
}

#[test]
fn completion_observed_exactly_once() {
    let mut m = VirtualTaskManager::new(4);
    let id = m.spawn(blocking(42)).unwrap();

    // Not complete yet: the handle does not resolve.
    assert_eq!(m.take_completion(id), None);

    assert!(m.finish(id, UnitOutcome::Success(42)));
    assert_eq!(m.take_completion(id), Some(UnitOutcome::Success(42)));

    // A second resolution of the same handle delivers nothing.
    assert_eq!(m.take_completion(id), None);
}

#[test]
fn unit_failure_is_delivered_through_the_handle() {
    let mut m = VirtualTaskManager::new(4);
    let id = m.spawn(cooperative(5)).unwrap();
    assert!(m.finish(id, UnitOutcome::Failure(7)));
    assert_eq!(m.take_completion(id), Some(UnitOutcome::Failure(7)));
}

fn all_completions_observed(n: u64) {
    let mut m = VirtualTaskManager::new(n as usize);
    let mut ids = Vec::new();
    for i in 0..n {
        ids.push(m.spawn(blocking(i)).unwrap());
    }
    for (i, &id) in ids.iter().enumerate() {
        assert!(m.finish(id, UnitOutcome::Success(i as u64)));
    }
    // Every handle resolves exactly once, with the unit's own outcome.
    let mut observed = 0u64;
    for (i, &id) in ids.iter().enumerate() {
        assert_eq!(m.take_completion(id), Some(UnitOutcome::Success(i as u64)));
        observed += 1;
    }
    assert_eq!(observed, n);
    // No handle resolves twice, so nothing was duplicated.
    for &id in &ids {
        assert_eq!(m.take_completion(id), None);
    }
    assert_eq!(m.in_use(), 0);
}

#[test]
fn one_completion_observed() {
    all_completions_observed(1);
}

#[test]
fn two_completions_observed() {
    all_completions_observed(2);
}

#[test]
fn many_completions_observed() {
    all_completions_observed(256);
}

#[test]
fn dropped_handles_do_not_leak() {
    let mut m = VirtualTaskManager::new(4);
    let baseline = m.in_use();
    for i in 0..100 {
        let id = m.spawn(blocking(i)).unwrap();
        // Handle dropped before the unit resolves ...
        assert!(m.drop_handle(id));
        // ... so the manager reclaims the unit the moment it finishes.
        assert!(m.finish(id, UnitOutcome::Success(i)));
        assert_eq!(m.in_use(), baseline);
        // The discarded completion is gone for good.
        assert_eq!(m.take_completion(id), None);
    }
}

#[test]
fn handle_dropped_after_finish_reclaims_at_once() {
    let mut m = VirtualTaskManager::new(4);
    let id = m.spawn(blocking(9)).unwrap();
    assert!(m.finish(id, UnitOutcome::Success(9)));
    assert_eq!(m.in_use(), 1);
    assert!(m.drop_handle(id));
    assert_eq!(m.in_use(), 0);
    assert_eq!(m.take_completion(id), None);
}

#[test]
fn finish_refuses_unknown_or_retired_units() {
    let mut m = VirtualTaskManager::new(4);
    assert!(!m.finish(0, UnitOutcome::Success(0)));
    let id = m.spawn(blocking(1)).unwrap();
    assert!(m.finish(id, UnitOutcome::Success(1)));
    // Already finished: a second report is refused.
    assert!(!m.finish(id, UnitOutcome::Success(2)));
}

#[test]
fn drop_handle_refuses_dead_handles() {
    let mut m = VirtualTaskManager::new(4);
    assert!(!m.drop_handle(3));
    let id = m.spawn(blocking(1)).unwrap();
    assert!(m.drop_handle(id));
    // The handle is already gone.
    assert!(!m.drop_handle(id));
}
