use wasi_runtime::net::{CapabilityError, NetworkingProvider};
use wasi_runtime::runtime::{
    ConstructionError, HttpClient, PluggableRuntimeImplementation, WasiRuntime,
};
use wasi_runtime::task::{
    ExecutionKind, MemoryMode, SpawnDescriptor, UnitOutcome, VirtualTaskManager,
};
use wasi_runtime::tty::{DefaultTty, TtyBridge, WasiTtyState};

#[test]
fn universal_capabilities_are_total() {
    let rt = PluggableRuntimeImplementation::new(VirtualTaskManager::new(4));
    // Networking and the task manager never signal absence.
    assert!(!rt.networking().has_backend());
    assert_eq!(rt.task_manager().in_use(), 0);
}

#[test]
fn http_absent_until_injected_and_distinct_from_failures() {
    let mut rt = PluggableRuntimeImplementation::new(VirtualTaskManager::new(4));
    // No HTTP provider was injected: absent, a legitimate state.
    assert!(rt.http_client().is_none());

    // A networking failure looks different: it is an error from an
    // attempted operation, not a missing value.
    assert_eq!(rt.networking().unbridge(), Err(CapabilityError::Unavailable));

    rt.set_http_client(Some(HttpClient { backend: 7 }));
    assert_eq!(rt.http_client(), Some(&HttpClient { backend: 7 }));
}

#[test]
fn unsupported_networking_fails_explicitly() {
    let rt = PluggableRuntimeImplementation::new(VirtualTaskManager::new(4));
    // The conservative default provider grants nothing; an attempted
    // operation reports unavailability instead of panicking or hanging.
    assert!(!rt.networking().has_backend());
    assert_eq!(rt.networking().unbridge(), Err(CapabilityError::Unavailable));
}

#[test]
fn networking_provider_can_be_replaced() {
    let mut rt = PluggableRuntimeImplementation::new(VirtualTaskManager::new(4));
    rt.set_networking_implementation(NetworkingProvider::local());
    assert!(rt.networking().has_backend());
    assert!(rt.networking().as_local().is_some());
}

#[test]
fn try_default_refuses_deployments_without_a_task_manager() {
    match PluggableRuntimeImplementation::try_default(None) {
        Err(e) => assert_eq!(e, ConstructionError::NoDefaultTaskManager),
        Ok(_) => panic!("construction must fail loudly with no implicit task manager"),
    }
}

#[test]
fn try_default_builds_around_the_implicit_task_manager() {
    let rt = PluggableRuntimeImplementation::try_default(Some(VirtualTaskManager::new(8)))
        .expect("an implicit task manager was offered");
    assert!(rt.http_client().is_none());
    assert!(!rt.networking().has_backend());
    // The implicit path installs the process-default compilation engine.
    assert!(rt.engine().is_some());
}

#[test]
fn tty_capability_is_present_on_the_pluggable_runtime() {
    let mut rt = PluggableRuntimeImplementation::new(VirtualTaskManager::new(4));
    let tty = rt.tty().expect("the pluggable runtime carries a TTY bridge");
    tty.tty_set(WasiTtyState { echo: true, line_buffered: true, line_feeds: false });
    assert_eq!(
        tty.tty_get(),
        WasiTtyState { echo: true, line_buffered: true, line_feeds: false }
    );

    // Replacing the provider installs a fresh, cleared bridge.
    rt.set_tty(DefaultTty::new());
    assert_eq!(
        rt.tty().unwrap().tty_get(),
        WasiTtyState { echo: false, line_buffered: false, line_feeds: false }
    );
}

#[test]
fn stores_are_provisioned_with_and_without_a_dedicated_engine() {
    let mut rt = PluggableRuntimeImplementation::new(VirtualTaskManager::new(4));
    // No dedicated engine: the default construction path is used.
    assert!(rt.engine().is_none());
    let store = rt.new_store();

    // With a dedicated engine configured, provisioning still succeeds and
    // the engine is reported as present.
    rt.set_engine(Some(store.engine().clone()));
    assert!(rt.engine().is_some());
    let _ = rt.new_store();
}

#[test]
fn spawning_through_the_runtime_task_manager() {
    let mut rt = PluggableRuntimeImplementation::new(VirtualTaskManager::new(2));
    let desc = SpawnDescriptor {
        execution: ExecutionKind::Blocking,
        memory: MemoryMode::Dedicated,
        payload: 11,
    };
    let id = rt.task_manager_mut().spawn(desc).unwrap();
    assert!(rt.task_manager_mut().finish(id, UnitOutcome::Success(11)));
    assert_eq!(rt.task_manager_mut().take_completion(id), Some(UnitOutcome::Success(11)));
}
