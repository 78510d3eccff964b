use wasm_host::runtime::{
    Capability, PlugableRuntimeImplementation, WasiError, WasiRuntimeImplementation,
    WasiThreadError, WasiTtyState, WASI_EINVAL, WASI_ENOTSUP,
};
use wasm_host::thread_id::WasiThreadId;

fn unconfigured() -> PlugableRuntimeImplementation<String, u8> {
    PlugableRuntimeImplementation::default()
}

#[test]
fn default_tty_state_is_80_by_25() {
    let runtime = unconfigured();
    assert_eq!(
        runtime.tty_get(),
        WasiTtyState {
            cols: 80,
            rows: 25,
            width: 800,
            height: 600,
            stdin_tty: false,
            stdout_tty: false,
            stderr_tty: false,
            echo: true,
            line_buffered: true,
        }
    );
}

#[test]
fn default_tty_set_changes_nothing() {
    let runtime = unconfigured();
    let before = runtime.tty_get();
    runtime.tty_set(WasiTtyState {
        cols: 1,
        rows: 2,
        width: 3,
        height: 4,
        stdin_tty: true,
        stdout_tty: true,
        stderr_tty: true,
        echo: false,
        line_buffered: false,
    });
    assert_eq!(runtime.tty_get(), before);
}

#[test]
fn default_thread_operations_are_unsupported() {
    let runtime = unconfigured();
    assert_eq!(
        runtime.thread_spawn("worker", 42, false),
        Err(WasiThreadError::Unsupported)
    );
    assert_eq!(
        runtime.thread_spawn("reactor", 0, true),
        Err(WasiThreadError::Unsupported)
    );
    assert_eq!(runtime.thread_parallelism(), Err(WasiThreadError::Unsupported));
    assert_eq!(
        runtime.thread_join(WasiThreadId(1)),
        Err(WasiThreadError::Unsupported)
    );
}

#[test]
fn default_yield_and_pid() {
    let runtime = unconfigured();
    let yielded: Result<(), WasiError> = runtime.yield_now(WasiThreadId(0));
    assert_eq!(yielded, Ok(()));
    assert_eq!(runtime.getpid(), None);
}

#[test]
fn default_runtime_grants_no_capability() {
    let runtime = unconfigured();
    assert!(!runtime.bus().is_supported());
    assert!(!runtime.networking().is_supported());
    assert!(runtime.bus().backend().is_none());
    assert!(runtime.networking().backend().is_none());
}

#[test]
fn setters_swap_one_capability_each() {
    let mut runtime = unconfigured();
    runtime.set_bus_implementation(String::from("bus"));
    assert!(runtime.bus().is_supported());
    assert_eq!(runtime.bus().backend(), Some(&String::from("bus")));
    assert!(!runtime.networking().is_supported());
    runtime.set_networking_implementation(3);
    assert_eq!(runtime.networking().backend(), Some(&3));
    assert_eq!(runtime.bus().backend(), Some(&String::from("bus")));
    runtime.set_bus_implementation(String::from("other"));
    assert_eq!(runtime.bus().backend(), Some(&String::from("other")));
    assert_eq!(runtime.networking().backend(), Some(&3));
    assert!(matches!(runtime.bus, Capability::Provided(_)));
}

#[test]
fn generated_thread_ids_are_distinct() {
    let runtime = unconfigured();
    let mut seen: Vec<WasiThreadId> = Vec::new();
    for _ in 0..1000 {
        let id = runtime.thread_generate_id();
        assert!(!seen.contains(&id));
        seen.push(id);
    }
    assert_eq!(seen.len(), 1000);
    assert_eq!(seen[0], WasiThreadId(0));
    assert_eq!(seen[999], WasiThreadId(999));
}

#[test]
fn setters_leave_the_thread_counter_alone() {
    let mut runtime = unconfigured();
    assert_eq!(runtime.thread_generate_id(), WasiThreadId(0));
    runtime.set_bus_implementation(String::new());
    runtime.set_networking_implementation(0);
    assert_eq!(runtime.thread_generate_id(), WasiThreadId(1));
}

#[test]
fn thread_id_converts_both_ways() {
    let id = WasiThreadId::from(77u32);
    assert_eq!(id, WasiThreadId(77));
    assert_eq!(id.raw(), 77);
    let raw: u32 = id.into();
    assert_eq!(raw, 77);
    let max: WasiThreadId = u32::MAX.into();
    assert_eq!(max.raw(), u32::MAX);
}

#[test]
fn thread_errors_map_to_errno() {
    let unsupported: u16 = WasiThreadError::Unsupported.into();
    let not_found: u16 = WasiThreadError::MethodNotFound.into();
    assert_eq!(unsupported, 58);
    assert_eq!(not_found, 28);
    assert_eq!(WASI_ENOTSUP, 58);
    assert_eq!(WASI_EINVAL, 28);
}

#[test]
fn thread_errors_describe_themselves() {
    assert_eq!(
        WasiThreadError::Unsupported.message(),
        "Multithreading is not supported"
    );
    assert_eq!(
        WasiThreadError::MethodNotFound.message(),
        "The method named is not an exported function"
    );
}
