use arbitration::kernel::introspection::{Kernel, KernelInfo, Process};
use arbitration::kernel::platform::ProcessManagementCapability;
use arbitration::kernel::process::{ProcessId, State};

struct Capability;

impl ProcessManagementCapability for Capability {}

fn process(index: usize, name: &'static str, state: State, expired: usize) -> Option<Process> {
    Some(Process {
        id: ProcessId::new(index, 100 + index),
        name,
        state,
        syscall_count: 10 * index + 1,
        dropped_upcall_count: 2 * index,
        restart_count: index,
        timeslice_expiration_count: expired,
        grant_allocated_count: if index % 2 == 0 { Some(index + 3) } else { None },
    })
}

fn info() -> KernelInfo {
    KernelInfo::new(Kernel {
        processes: vec![
            process(0, "blink", State::Running, 5),
            None,
            process(2, "sensors", State::Yielded, 7),
            process(3, "crashed", State::Faulted, 1),
            process(4, "idle", State::Unstarted, 0),
        ],
        grant_count: 9,
    })
}

#[test]
fn processes_are_counted_by_state() {
    let k = info();
    assert_eq!(k.number_loaded_processes(&Capability), 4);
    assert_eq!(k.number_active_processes(&Capability), 2);
    assert_eq!(k.number_inactive_processes(&Capability), 2);
    let empty = KernelInfo::new(Kernel { processes: vec![], grant_count: 0 });
    assert_eq!(empty.number_loaded_processes(&Capability), 0);
    assert_eq!(empty.number_active_processes(&Capability), 0);
    assert_eq!(empty.number_inactive_processes(&Capability), 0);
    assert_eq!(empty.timeslice_expirations(&Capability), 0);
}

#[test]
fn questions_about_one_process() {
    let k = info();
    let app = ProcessId::new(2, 102);
    assert_eq!(k.process_name(app, &Capability), "sensors");
    assert_eq!(k.number_app_syscalls(app, &Capability), 21);
    assert_eq!(k.number_app_dropped_upcalls(app, &Capability), 4);
    assert_eq!(k.number_app_restarts(app, &Capability), 2);
    assert_eq!(k.number_app_timeslice_expirations(app, &Capability), 7);
    assert_eq!(k.number_app_grant_uses(app, &Capability), (5, 9));
    assert_eq!(k.number_app_grant_uses(ProcessId::new(3, 103), &Capability), (0, 9));
}

#[test]
fn questions_about_a_process_that_is_not_there() {
    let k = info();
    for app in [ProcessId::new(1, 101), ProcessId::new(2, 999), ProcessId::new(50, 150)] {
        assert_eq!(k.process_name(app, &Capability), "unknown");
        assert_eq!(k.number_app_syscalls(app, &Capability), 0);
        assert_eq!(k.number_app_dropped_upcalls(app, &Capability), 0);
        assert_eq!(k.number_app_restarts(app, &Capability), 0);
        assert_eq!(k.number_app_timeslice_expirations(app, &Capability), 0);
        assert_eq!(k.number_app_grant_uses(app, &Capability), (0, 9));
    }
}

#[test]
fn expired_time_slices_are_summed() {
    let k = info();
    assert_eq!(k.timeslice_expirations(&Capability), 13);
    let many = KernelInfo::new(Kernel {
        processes: vec![
            process(0, "a", State::Running, usize::MAX - 1),
            process(1, "b", State::Running, 5),
            process(2, "c", State::Running, 5),
        ],
        grant_count: 0,
    });
    assert_eq!(many.timeslice_expirations(&Capability), usize::MAX);
}
