use std::cell::RefCell;

use controlzone::commands::{create_inner, update_innner};
use controlzone::czos::CZOS;
use controlzone::error::CzError;
use controlzone::meta::Meta;
use controlzone::resource::{Resource, StaticNet};
use controlzone::state::State;
use controlzone::zone::{ControlZone, UpdateMode};

fn zone(state: State) -> ControlZone {
    ControlZone {
        meta: Meta {
            name: String::from("cz1"),
            workdir: String::from("/tmp/controlzones/cz1"),
            share_folder: String::from("/tmp/controlzones/cz1/controlzone"),
            full_config: String::from("/tmp/controlzones/cz1/controlzone.yaml"),
        },
        os: CZOS {
            kernel: String::from("/kernels/k1"),
            initram_fs: None,
            rootfs: String::from("/images/base.qcow2"),
            kcmdline: String::from("console=ttyS0"),
        },
        resource: Resource {
            cpuset: String::from("0-3"),
            memory: 1024,
            static_net: None,
            cpus: vec![0, 1, 2, 3],
        },
        state,
    }
}

#[test]
fn create_provisions_then_persists_then_marks_created() {
    let steps: RefCell<Vec<&'static str>> = RefCell::new(Vec::new());
    let mut cz = zone(State::Pending);
    let r = cz.create(
        |_z: &ControlZone| {
            steps.borrow_mut().push("init");
            Ok(String::from("/tmp/controlzones/cz1/cz.img"))
        },
        |_z: &ControlZone| {
            steps.borrow_mut().push("config");
            Ok(())
        },
        |_z: &ControlZone, st: State| {
            steps.borrow_mut().push("state");
            assert_eq!(st, State::Created);
            Ok(())
        },
        |_z: &ControlZone| {
            steps.borrow_mut().push("delete");
            Ok(())
        },
    );
    assert_eq!(r, Ok(()));
    assert_eq!(cz.state, State::Created);
    assert_eq!(cz.os.rootfs, "/tmp/controlzones/cz1/cz.img");
    assert_eq!(*steps.borrow(), vec!["init", "config", "state"]);
}

#[test]
fn create_on_created_zone_is_a_no_op() {
    // Idempotent re-apply: the effects closures are never consulted.
    let steps: RefCell<Vec<&'static str>> = RefCell::new(Vec::new());
    let mut cz = zone(State::Created);
    let r = cz.create(
        |_z: &ControlZone| {
            steps.borrow_mut().push("init");
            Ok(String::from("x"))
        },
        |_z: &ControlZone| {
            steps.borrow_mut().push("config");
            Ok(())
        },
        |_z: &ControlZone, _st: State| {
            steps.borrow_mut().push("state");
            Ok(())
        },
        |_z: &ControlZone| {
            steps.borrow_mut().push("delete");
            Ok(())
        },
    );
    assert_eq!(r, Ok(()));
    assert_eq!(cz.state, State::Created);
    assert_eq!(cz.os.rootfs, "/images/base.qcow2");
    assert!(steps.borrow().is_empty());
}

#[test]
fn create_from_running_is_illegal() {
    let mut cz = zone(State::Running);
    let r = cz.create(
        |_z: &ControlZone| Ok(String::from("x")),
        |_z: &ControlZone| Ok(()),
        |_z: &ControlZone, _st: State| Ok(()),
        |_z: &ControlZone| Ok(()),
    );
    assert_eq!(r, Err(CzError::IllegalTransition { from: State::Running, to: State::Created }));
    assert_eq!(cz.state, State::Running);
}

#[test]
fn failed_image_copy_rolls_the_workdir_back() {
    // A create that fails partway deletes the workdir before propagating.
    let steps: RefCell<Vec<&'static str>> = RefCell::new(Vec::new());
    let mut cz = zone(State::Pending);
    let r = cz.create(
        |_z: &ControlZone| {
            steps.borrow_mut().push("init");
            Err(CzError::Provisioning)
        },
        |_z: &ControlZone| {
            steps.borrow_mut().push("config");
            Ok(())
        },
        |_z: &ControlZone, _st: State| {
            steps.borrow_mut().push("state");
            Ok(())
        },
        |_z: &ControlZone| {
            steps.borrow_mut().push("delete");
            Ok(())
        },
    );
    assert_eq!(r, Err(CzError::Provisioning));
    assert_eq!(cz.state, State::Pending);
    assert_eq!(*steps.borrow(), vec!["init", "delete"]);
}

#[test]
fn failed_config_sync_rolls_the_workdir_back() {
    let steps: RefCell<Vec<&'static str>> = RefCell::new(Vec::new());
    let mut cz = zone(State::Pending);
    let r = cz.create(
        |_z: &ControlZone| {
            steps.borrow_mut().push("init");
            Ok(String::from("/tmp/controlzones/cz1/cz.img"))
        },
        |_z: &ControlZone| {
            steps.borrow_mut().push("config");
            Err(CzError::Config)
        },
        |_z: &ControlZone, _st: State| {
            steps.borrow_mut().push("state");
            Ok(())
        },
        |_z: &ControlZone| {
            steps.borrow_mut().push("delete");
            Ok(())
        },
    );
    assert_eq!(r, Err(CzError::Config));
    assert_eq!(cz.state, State::Pending);
    assert_eq!(*steps.borrow(), vec!["init", "config", "delete"]);
}

#[test]
fn create_inner_refuses_an_existing_workdir() {
    let mut cz = zone(State::Pending);
    let r = create_inner(
        &mut cz,
        true,
        |_z: &ControlZone| Ok(String::from("x")),
        |_z: &ControlZone| Ok(()),
        |_z: &ControlZone, _st: State| Ok(()),
        |_z: &ControlZone| Ok(()),
    );
    assert_eq!(r, Err(CzError::Provisioning));
    assert_eq!(cz.state, State::Pending);
}

#[test]
fn meta_change_is_always_refused() {
    // Regardless of what else changed, touching meta fails the update.
    let mut cz = zone(State::Running);
    let mut new_cz = zone(State::Pending);
    new_cz.meta.workdir = String::from("/elsewhere");
    new_cz.resource.memory = 2048;
    let r = cz.update_config(new_cz, |_z: &ControlZone| Ok(()));
    assert_eq!(r, Err(CzError::MetaImmutable));
    assert_eq!(cz.resource.memory, 1024);
    assert_eq!(cz.state, State::Running);
}

#[test]
fn memory_only_update_is_hot() {
    let synced: RefCell<u32> = RefCell::new(0);
    let mut cz = zone(State::Running);
    let mut new_cz = zone(State::Pending);
    new_cz.resource.memory = 2048;
    let r = cz.update_config(new_cz, |z: &ControlZone| {
        *synced.borrow_mut() = z.resource.memory;
        Ok(())
    });
    assert_eq!(r, Ok(UpdateMode::Hot));
    assert_eq!(cz.resource.memory, 2048);
    // The re-persisted configuration already held the new values.
    assert_eq!(*synced.borrow(), 2048);
}

#[test]
fn kernel_update_needs_a_reboot() {
    let mut cz = zone(State::Running);
    let mut new_cz = zone(State::Pending);
    new_cz.os.kernel = String::from("/kernels/k2");
    let r = cz.update_config(new_cz, |_z: &ControlZone| Ok(()));
    assert_eq!(r, Ok(UpdateMode::Reboot));
    assert_eq!(cz.os.kernel, "/kernels/k2");
}

#[test]
fn unchanged_update_is_stale() {
    let synced: RefCell<bool> = RefCell::new(false);
    let mut cz = zone(State::Running);
    let new_cz = zone(State::Pending);
    let r = cz.update_config(new_cz, |_z: &ControlZone| {
        *synced.borrow_mut() = true;
        Ok(())
    });
    assert_eq!(r, Ok(UpdateMode::Stale));
    // The configuration is re-persisted even when nothing changed.
    assert!(*synced.borrow());
}

#[test]
fn rootfs_change_is_ignored_but_counts_as_reboot() {
    let mut cz = zone(State::Running);
    let mut new_cz = zone(State::Pending);
    new_cz.os.rootfs = String::from("/images/other.qcow2");
    let r = cz.update_config(new_cz, |_z: &ControlZone| Ok(()));
    assert_eq!(r, Ok(UpdateMode::Reboot));
    assert_eq!(cz.os.rootfs, "/images/base.qcow2");
}

#[test]
fn static_net_change_is_hot() {
    let mut cz = zone(State::Running);
    let mut new_cz = zone(State::Pending);
    new_cz.resource.static_net = Some(StaticNet {
        address: String::from("192.168.1.10"),
        netmask: String::from("255.255.255.0"),
        gateway: String::from("192.168.1.2"),
    });
    let r = cz.update_config(new_cz, |_z: &ControlZone| Ok(()));
    assert_eq!(r, Ok(UpdateMode::Hot));
    assert!(cz.resource.static_net.is_some());
}

#[test]
fn start_stop_remove_drive_the_state_machine() {
    let mut cz = zone(State::Created);
    let r = cz.start(
        true,
        |_z: &ControlZone| Ok(()),
        |_z: &ControlZone| Ok(State::Running),
    );
    assert_eq!(r, Ok(()));
    assert_eq!(cz.state, State::Running);

    let r = cz.stop(|_z: &ControlZone| Ok(()), |_z: &ControlZone, _st: State| Ok(()));
    assert_eq!(r, Ok(()));
    assert_eq!(cz.state, State::Stopped);

    let r = cz.remove(|_z: &ControlZone| Ok(()));
    assert_eq!(r, Ok(()));
    assert_eq!(cz.state, State::Zombied);
}

#[test]
fn start_without_wait_leaves_state_to_the_guest() {
    let mut cz = zone(State::Created);
    let r = cz.start(
        false,
        |_z: &ControlZone| Ok(()),
        |_z: &ControlZone| Ok(State::Running),
    );
    assert_eq!(r, Ok(()));
    assert_eq!(cz.state, State::Created);
}

#[test]
fn failed_backend_start_leaves_the_prior_state() {
    let mut cz = zone(State::Stopped);
    let r = cz.start(
        true,
        |_z: &ControlZone| Err(CzError::Runtime),
        |_z: &ControlZone| Ok(State::Running),
    );
    assert_eq!(r, Err(CzError::Runtime));
    assert_eq!(cz.state, State::Stopped);
}

#[test]
fn failed_backend_stop_keeps_the_zone_running() {
    let mut cz = zone(State::Running);
    let r = cz.stop(
        |_z: &ControlZone| Err(CzError::Runtime),
        |_z: &ControlZone, _st: State| Ok(()),
    );
    assert_eq!(r, Err(CzError::Runtime));
    assert_eq!(cz.state, State::Running);
}

#[test]
fn remove_is_refused_while_running() {
    let mut cz = zone(State::Running);
    let r = cz.remove(|_z: &ControlZone| Ok(()));
    assert_eq!(r, Err(CzError::IllegalTransition { from: State::Running, to: State::Zombied }));
    assert_eq!(cz.state, State::Running);
}

#[test]
fn wait_timeout_surfaces_from_start() {
    let mut cz = zone(State::Created);
    let r = cz.start(
        true,
        |_z: &ControlZone| Ok(()),
        |_z: &ControlZone| Err(CzError::WaitTimeout),
    );
    assert_eq!(r, Err(CzError::WaitTimeout));
    assert_eq!(cz.state, State::Created);
}

#[test]
fn reboot_update_stops_and_restarts() {
    let steps: RefCell<Vec<&'static str>> = RefCell::new(Vec::new());
    let mut cz = zone(State::Running);
    let mut new_cz = zone(State::Pending);
    new_cz.os.kernel = String::from("/kernels/k2");
    let r = update_innner(
        &mut cz,
        new_cz,
        true,
        |_z: &ControlZone| {
            steps.borrow_mut().push("sync");
            Ok(())
        },
        |_z: &ControlZone| {
            steps.borrow_mut().push("stop");
            Ok(())
        },
        |_z: &ControlZone, _st: State| {
            steps.borrow_mut().push("state");
            Ok(())
        },
        |_z: &ControlZone| {
            steps.borrow_mut().push("start");
            Ok(())
        },
        |_z: &ControlZone| {
            steps.borrow_mut().push("wait");
            Ok(State::Running)
        },
    );
    assert_eq!(r, Ok(()));
    assert_eq!(cz.state, State::Running);
    assert_eq!(cz.os.kernel, "/kernels/k2");
    assert_eq!(*steps.borrow(), vec!["sync", "stop", "state", "start", "wait"]);
}

#[test]
fn hot_update_does_not_touch_the_backend() {
    let steps: RefCell<Vec<&'static str>> = RefCell::new(Vec::new());
    let mut cz = zone(State::Running);
    let mut new_cz = zone(State::Pending);
    new_cz.resource.memory = 4096;
    let r = update_innner(
        &mut cz,
        new_cz,
        false,
        |_z: &ControlZone| {
            steps.borrow_mut().push("sync");
            Ok(())
        },
        |_z: &ControlZone| {
            steps.borrow_mut().push("stop");
            Ok(())
        },
        |_z: &ControlZone, _st: State| {
            steps.borrow_mut().push("state");
            Ok(())
        },
        |_z: &ControlZone| {
            steps.borrow_mut().push("start");
            Ok(())
        },
        |_z: &ControlZone| {
            steps.borrow_mut().push("wait");
            Ok(State::Running)
        },
    );
    assert_eq!(r, Ok(()));
    assert_eq!(cz.state, State::Running);
    assert_eq!(cz.resource.memory, 4096);
    assert_eq!(*steps.borrow(), vec!["sync"]);
}

#[test]
fn update_cannot_fail_past_the_meta_check_unless_sync_does() {
    // The only failure after the meta check is the persistence closure's.
    let mut cz = zone(State::Running);
    let mut new_cz = zone(State::Pending);
    new_cz.resource.memory = 8192;
    let r = cz.update_config(new_cz, |_z: &ControlZone| Err(CzError::Config));
    assert_eq!(r, Err(CzError::Config));
    // The in-memory fields are already updated; only the persistence failed.
    assert_eq!(cz.resource.memory, 8192);
    assert_eq!(cz.state, State::Running);
}

#[test]
fn failed_state_persistence_keeps_the_zone_running() {
    let mut cz = zone(State::Running);
    let r = cz.stop(
        |_z: &ControlZone| Ok(()),
        |_z: &ControlZone, _st: State| Err(CzError::Provisioning),
    );
    assert_eq!(r, Err(CzError::Provisioning));
    assert_eq!(cz.state, State::Running);
}

#[test]
fn reboot_update_of_a_stopped_zone_skips_the_stale_stop() {
    let steps: RefCell<Vec<&'static str>> = RefCell::new(Vec::new());
    let mut cz = zone(State::Stopped);
    let mut new_cz = zone(State::Pending);
    new_cz.os.kernel = String::from("/kernels/k3");
    let r = update_innner(
        &mut cz,
        new_cz,
        false,
        |_z: &ControlZone| {
            steps.borrow_mut().push("sync");
            Ok(())
        },
        |_z: &ControlZone| {
            steps.borrow_mut().push("stop");
            Ok(())
        },
        |_z: &ControlZone, _st: State| {
            steps.borrow_mut().push("state");
            Ok(())
        },
        |_z: &ControlZone| {
            steps.borrow_mut().push("start");
            Ok(())
        },
        |_z: &ControlZone| {
            steps.borrow_mut().push("wait");
            Ok(State::Running)
        },
    );
    assert_eq!(r, Ok(()));
    // The zone was already stopped, so the stop half is a no-op.
    assert_eq!(*steps.borrow(), vec!["sync", "start"]);
    assert_eq!(cz.state, State::Stopped);
    assert_eq!(cz.os.kernel, "/kernels/k3");
}

#[test]
fn reboot_update_of_a_created_zone_is_refused_at_the_stop() {
    let mut cz = zone(State::Created);
    let mut new_cz = zone(State::Pending);
    new_cz.os.kernel = String::from("/kernels/k3");
    let r = update_innner(
        &mut cz,
        new_cz,
        false,
        |_z: &ControlZone| Ok(()),
        |_z: &ControlZone| Ok(()),
        |_z: &ControlZone, _st: State| Ok(()),
        |_z: &ControlZone| Ok(()),
        |_z: &ControlZone| Ok(State::Running),
    );
    assert_eq!(r, Err(CzError::IllegalTransition { from: State::Created, to: State::Stopped }));
    // The configuration update itself already went through.
    assert_eq!(cz.os.kernel, "/kernels/k3");
    assert_eq!(cz.state, State::Created);
}
