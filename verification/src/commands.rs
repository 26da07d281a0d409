//! Command-level orchestration over the lifecycle engine.

use vstd::prelude::*;

use crate::czos::czos_eq;
use crate::error::CzError;
use crate::meta::meta_eq;
use crate::resource::resource_eq;
use crate::state::State;
use crate::zone::{
    provision_err, provision_ok, step_attempted, step_err, step_ok, sync_err, sync_ok, wait_err,
    wait_ok, ControlZone,
};

verus! {

/// Creates a zone after the command-level guard: creating over an already
/// existing workdir is refused, so a half-removed or foreign directory is
/// never silently adopted.  Otherwise this is [`ControlZone::create`].
pub fn create_inner<
    I: Fn(&ControlZone) -> Result<String, CzError>,
    C: Fn(&ControlZone) -> Result<(), CzError>,
    S: Fn(&ControlZone, State) -> Result<(), CzError>,
    D: Fn(&ControlZone) -> Result<(), CzError>,
>(
    cz: &mut ControlZone,
    workdir_exists: bool,
    init_workdir_f: I,
    sync_config_f: C,
    sync_state_f: S,
    delete_workdir_f: D,
) -> (r: Result<(), CzError>)
    requires
        forall|z: &ControlZone| #![auto] call_requires(init_workdir_f, (z,)),
        forall|z: &ControlZone| #![auto] call_requires(sync_config_f, (z,)),
        forall|z: &ControlZone, st: State| #![auto] call_requires(sync_state_f, (z, st)),
        forall|z: &ControlZone| #![auto] call_requires(delete_workdir_f, (z,)),
    ensures
        workdir_exists ==> r == Result::<(), CzError>::Err(CzError::Provisioning) && *final(cz)
            == *old(cz),
        !workdir_exists && old(cz).state == State::Created ==> r is Ok && *final(cz) == *old(cz),
        !workdir_exists && old(cz).state == State::Pending ==> {
            &&& final(cz).meta == old(cz).meta
            &&& final(cz).resource == old(cz).resource
            &&& final(cz).os.kernel == old(cz).os.kernel
            &&& final(cz).os.kcmdline == old(cz).os.kcmdline
            &&& final(cz).os.initram_fs == old(cz).os.initram_fs
            &&& r is Ok ==> {
                let provisioned = ControlZone {
                    meta: final(cz).meta,
                    os: final(cz).os,
                    resource: final(cz).resource,
                    state: State::Pending,
                };
                &&& final(cz).state == State::Created
                &&& provision_ok(init_workdir_f, *old(cz), final(cz).os.rootfs)
                &&& step_ok(sync_config_f, provisioned)
                &&& sync_ok(sync_state_f, provisioned, State::Created)
            }
            &&& r matches Err(e) ==> {
                &&& final(cz).state == State::Pending
                &&& step_attempted(delete_workdir_f, old(cz).meta)
                &&& (provision_err(init_workdir_f, old(cz).meta, e) || step_err(
                    sync_config_f,
                    old(cz).meta,
                    e,
                ) || sync_err(sync_state_f, old(cz).meta, State::Created, e) || step_err(
                    delete_workdir_f,
                    old(cz).meta,
                    e,
                ))
            }
        },
        !workdir_exists && old(cz).state != State::Created && old(cz).state != State::Pending ==> r
            == Result::<(), CzError>::Err(
            CzError::IllegalTransition { from: old(cz).state, to: State::Created },
        ) && *final(cz) == *old(cz),
{
    if cz.test_exists(workdir_exists).is_some() {
        return Err(CzError::Provisioning);
    }
    cz.create(init_workdir_f, sync_config_f, sync_state_f, delete_workdir_f)
}

/// Applies a configuration update and carries its mode out: a `Reboot`
/// update stops and restarts the zone, a `Hot` update is persisted but not
/// actuated against a running backend, a `Stale` update does nothing more.
/// A request that touches `meta` fails before anything changes; any other
/// failure is either a closure's own error or the illegal stop of a reboot
/// requested on a zone that is neither running nor stopped.
pub fn update_innner<
    C: Fn(&ControlZone) -> Result<(), CzError>,
    F: Fn(&ControlZone) -> Result<(), CzError>,
    S: Fn(&ControlZone, State) -> Result<(), CzError>,
    B: Fn(&ControlZone) -> Result<(), CzError>,
    W: Fn(&ControlZone) -> Result<State, CzError>,
>(
    curr_cz: &mut ControlZone,
    new_cz: ControlZone,
    wait: bool,
    sync_f: C,
    stop_f: F,
    sync_state_f: S,
    start_f: B,
    wait_f: W,
) -> (r: Result<(), CzError>)
    requires
        forall|z: &ControlZone| #![auto] call_requires(sync_f, (z,)),
        forall|z: &ControlZone| #![auto] call_requires(stop_f, (z,)),
        forall|z: &ControlZone, st: State| #![auto] call_requires(sync_state_f, (z, st)),
        forall|z: &ControlZone| #![auto] call_requires(start_f, (z,)),
        forall|z: &ControlZone| #![auto] call_requires(wait_f, (z,)),
    ensures
        !meta_eq(new_cz.meta, old(curr_cz).meta) ==> r == Result::<(), CzError>::Err(
            CzError::MetaImmutable,
        ) && *final(curr_cz) == *old(curr_cz),
        meta_eq(new_cz.meta, old(curr_cz).meta) ==> {
            let res_changed = !resource_eq(new_cz.resource, old(curr_cz).resource);
            let os_changed = !czos_eq(new_cz.os, old(curr_cz).os);
            &&& final(curr_cz).meta == old(curr_cz).meta
            &&& final(curr_cz).resource == if res_changed {
                new_cz.resource
            } else {
                old(curr_cz).resource
            }
            &&& final(curr_cz).os.kernel == if os_changed {
                new_cz.os.kernel
            } else {
                old(curr_cz).os.kernel
            }
            &&& final(curr_cz).os.kcmdline == if os_changed {
                new_cz.os.kcmdline
            } else {
                old(curr_cz).os.kcmdline
            }
            &&& final(curr_cz).os.rootfs == old(curr_cz).os.rootfs
            &&& final(curr_cz).os.initram_fs == old(curr_cz).os.initram_fs
            &&& !os_changed ==> final(curr_cz).state == old(curr_cz).state
            &&& os_changed && r is Ok && wait ==> final(curr_cz).state == State::Running
            &&& os_changed && r is Ok && !wait ==> final(curr_cz).state == State::Stopped
            &&& r is Ok ==> step_ok(
                sync_f,
                ControlZone {
                    meta: final(curr_cz).meta,
                    os: final(curr_cz).os,
                    resource: final(curr_cz).resource,
                    state: old(curr_cz).state,
                },
            )
            &&& os_changed && r is Ok && old(curr_cz).state == State::Running ==> step_ok(
                stop_f,
                ControlZone {
                    meta: final(curr_cz).meta,
                    os: final(curr_cz).os,
                    resource: final(curr_cz).resource,
                    state: State::Running,
                },
            )
            &&& os_changed && r is Ok ==> step_ok(
                start_f,
                ControlZone {
                    meta: final(curr_cz).meta,
                    os: final(curr_cz).os,
                    resource: final(curr_cz).resource,
                    state: State::Stopped,
                },
            )
            &&& os_changed && r is Ok && wait ==> wait_ok(
                wait_f,
                ControlZone {
                    meta: final(curr_cz).meta,
                    os: final(curr_cz).os,
                    resource: final(curr_cz).resource,
                    state: State::Stopped,
                },
            )
            &&& r matches Err(e) ==> (step_err(sync_f, old(curr_cz).meta, e) || step_err(
                stop_f,
                old(curr_cz).meta,
                e,
            ) || sync_err(sync_state_f, old(curr_cz).meta, State::Stopped, e) || step_err(
                start_f,
                old(curr_cz).meta,
                e,
            ) || wait_err(wait_f, old(curr_cz).meta, e) || (os_changed && old(curr_cz).state
                != State::Running && old(curr_cz).state != State::Stopped && e
                == CzError::IllegalTransition { from: old(curr_cz).state, to: State::Stopped }))
        },
{
    let mode = match curr_cz.update_config(new_cz, sync_f) {
        Ok(m) => m,
        Err(e) => {
            return Err(e);
        },
    };
    match mode {
        crate::zone::UpdateMode::Reboot => {
            match curr_cz.stop(stop_f, sync_state_f) {
                Ok(()) => {},
                Err(e) => {
                    return Err(e);
                },
            }
            match curr_cz.start(wait, start_f, wait_f) {
                Ok(()) => {},
                Err(e) => {
                    return Err(e);
                },
            }
            Ok(())
        },
        crate::zone::UpdateMode::Hot => Ok(()),
        crate::zone::UpdateMode::Stale => Ok(()),
    }
}

} // verus!
