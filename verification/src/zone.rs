//! The `ControlZone` aggregate and its lifecycle engine.

use vstd::prelude::*;

use crate::czos::{czos_eq, CZOS};
use crate::error::CzError;
use crate::meta::{meta_eq, Meta};
use crate::resource::{resource_eq, Resource};
use crate::state::{transition_allowed, State};
use crate::text::join_path;
use crate::xml::{opt_view, render_domain_xml, spec_domain_xml};

verus! {

/// Root under which zone workdirs are created by convention.
pub const WORKDIR_ROOT: &'static str = "/tmp/controlzones";

/// File name of a zone's persisted full configuration.
pub const CZ_CONFIG: &'static str = "controlzone.yaml";

/// File name of the copied boot image inside the workdir.
pub const CZ_IMAGE: &'static str = "cz.img";

/// Pod exchange directory under the share folder.
pub const POD_DIR: &'static str = "pod";

/// Directory under `pod/` the host drops descriptors into.
pub const POD_APPLY_DIR: &'static str = "apply";

/// Directory under `pod/` the host moves descriptors into for teardown.
pub const POD_DOWN_DIR: &'static str = "down";

/// Log file under `pod/` holding every container-runtime invocation's output.
pub const POD_CRUNTIME_LOG: &'static str = "log";

/// Info directory under the share folder.
pub const INFO_DIR: &'static str = "info";

/// State sidecar file under `info/`.
pub const STATE_FILE: &'static str = "state";

/// IP info file under `info/`.
pub const IP_FILE: &'static str = "ip";

/// Static network configuration file under `info/`.
pub const STATIC_NET_FILE: &'static str = "static_net";

/// The conventional workdir of a zone: `<root>/<name>`.
pub open spec fn spec_default_workdir(name: Seq<char>) -> Seq<char> {
    "/tmp/controlzones"@ + "/"@ + name
}

/// The conventional workdir of the zone called `cz_name`.
pub fn default_workdir(cz_name: &str) -> (r: String)
    ensures
        r@ == spec_default_workdir(cz_name@),
{
    join_path(WORKDIR_ROOT, cz_name)
}

/// How a configuration update must be applied to a zone.
#[derive(Debug, Copy, Clone, PartialEq, Eq, Structural)]
pub enum UpdateMode {
    /// The boot specification changed: the zone must be rebooted.
    Reboot,
    /// Only the resource shape changed: applied in place.
    Hot,
    /// Nothing changed: a no-op.
    Stale,
}

/// The control-zone aggregate: identity, boot specification, resource shape
/// and current lifecycle state.
///
/// The filesystem is the durable store: every effect on it, and every call
/// into a virtualization backend, is taken as a closure argument so the
/// caller performs it.  The methods here decide what happens and in which
/// order, check every transition through the state machine, and never touch
/// the durable footprint on an illegal or stale request.
#[derive(Debug)]
pub struct ControlZone {
    pub meta: Meta,
    pub os: CZOS,
    pub resource: Resource,
    pub state: State,
}

/// Field-wise equality of two zones.
pub open spec fn zone_eq(a: ControlZone, b: ControlZone) -> bool {
    &&& meta_eq(a.meta, b.meta)
    &&& czos_eq(a.os, b.os)
    &&& resource_eq(a.resource, b.resource)
    &&& a.state == b.state
}

impl PartialEq for ControlZone {
    fn eq(&self, o: &ControlZone) -> (r: bool) {
        self.meta == o.meta && self.os == o.os && self.resource == o.resource && self.state
            == o.state
    }
}

impl vstd::std_specs::cmp::PartialEqSpecImpl for ControlZone {
    open spec fn obeys_eq_spec() -> bool {
        true
    }

    open spec fn eq_spec(&self, o: &ControlZone) -> bool {
        zone_eq(*self, *o)
    }
}

/// The state sidecar file of a zone: `<share_folder>/info/state`.
pub open spec fn spec_state_file(m: Meta) -> Seq<char> {
    m.share_folder@ + "/"@ + "info"@ + "/"@ + "state"@
}

/// Some call of the effect `f` on exactly `zone` returned `Ok`.
pub open spec fn step_ok<F: Fn(&ControlZone) -> Result<(), CzError>>(
    f: F,
    zone: ControlZone,
) -> bool {
    exists|z: &ControlZone, out: Result<(), CzError>|
        #![trigger call_ensures(f, (z,), out)]
        *z == zone && out is Ok && call_ensures(f, (z,), out)
}

/// Some call of the effect `f` on a zone of this identity returned `Err(e)`.
pub open spec fn step_err<F: Fn(&ControlZone) -> Result<(), CzError>>(
    f: F,
    m: Meta,
    e: CzError,
) -> bool {
    exists|z: &ControlZone, out: Result<(), CzError>|
        #![trigger call_ensures(f, (z,), out)]
        z.meta == m && out == Result::<(), CzError>::Err(e) && call_ensures(f, (z,), out)
}

/// Some call of the effect `f` on a zone of this identity returned,
/// whatever it returned.
pub open spec fn step_attempted<F: Fn(&ControlZone) -> Result<(), CzError>>(
    f: F,
    m: Meta,
) -> bool {
    exists|z: &ControlZone, out: Result<(), CzError>|
        #![trigger call_ensures(f, (z,), out)]
        z.meta == m && call_ensures(f, (z,), out)
}

/// Some call of the state-persisting effect `f` on exactly `zone` with
/// exactly `st` returned `Ok`.
pub open spec fn sync_ok<S: Fn(&ControlZone, State) -> Result<(), CzError>>(
    f: S,
    zone: ControlZone,
    st: State,
) -> bool {
    exists|z: &ControlZone, s2: State, out: Result<(), CzError>|
        #![trigger call_ensures(f, (z, s2), out)]
        *z == zone && s2 == st && out is Ok && call_ensures(f, (z, s2), out)
}

/// Some call of the state-persisting effect `f` on a zone of this identity
/// with `st` returned `Err(e)`.
pub open spec fn sync_err<S: Fn(&ControlZone, State) -> Result<(), CzError>>(
    f: S,
    m: Meta,
    st: State,
    e: CzError,
) -> bool {
    exists|z: &ControlZone, s2: State, out: Result<(), CzError>|
        #![trigger call_ensures(f, (z, s2), out)]
        z.meta == m && s2 == st && out == Result::<(), CzError>::Err(e) && call_ensures(
            f,
            (z, s2),
            out,
        )
}

/// Some call of the provisioning effect `f` on exactly `zone` returned
/// `Ok(rootfs)`.
pub open spec fn provision_ok<I: Fn(&ControlZone) -> Result<String, CzError>>(
    f: I,
    zone: ControlZone,
    rootfs: String,
) -> bool {
    exists|z: &ControlZone, out: Result<String, CzError>|
        #![trigger call_ensures(f, (z,), out)]
        *z == zone && out == Result::<String, CzError>::Ok(rootfs) && call_ensures(f, (z,), out)
}

/// Some call of the provisioning effect `f` on a zone of this identity
/// returned `Err(e)`.
pub open spec fn provision_err<I: Fn(&ControlZone) -> Result<String, CzError>>(
    f: I,
    m: Meta,
    e: CzError,
) -> bool {
    exists|z: &ControlZone, out: Result<String, CzError>|
        #![trigger call_ensures(f, (z,), out)]
        z.meta == m && out == Result::<String, CzError>::Err(e) && call_ensures(f, (z,), out)
}

/// Some call of the readiness wait `f` on exactly `zone` returned `Ok`.
pub open spec fn wait_ok<W: Fn(&ControlZone) -> Result<State, CzError>>(
    f: W,
    zone: ControlZone,
) -> bool {
    exists|z: &ControlZone, out: Result<State, CzError>|
        #![trigger call_ensures(f, (z,), out)]
        *z == zone && out is Ok && call_ensures(f, (z,), out)
}

/// Some call of the readiness wait `f` on a zone of this identity returned
/// `Err(e)`.
pub open spec fn wait_err<W: Fn(&ControlZone) -> Result<State, CzError>>(
    f: W,
    m: Meta,
    e: CzError,
) -> bool {
    exists|z: &ControlZone, out: Result<State, CzError>|
        #![trigger call_ensures(f, (z,), out)]
        z.meta == m && out == Result::<State, CzError>::Err(e) && call_ensures(f, (z,), out)
}

impl ControlZone {
    /// Path of the state sidecar file.
    pub fn state_file(&self) -> (r: String)
        ensures
            r@ == spec_state_file(self.meta),
    {
        let info = join_path(self.meta.share_folder.as_str(), "info");
        join_path(info.as_str(), "state")
    }

    /// Renders this zone's libvirt domain descriptor, always with the
    /// dual-NIC network block.
    pub fn to_xml(&self) -> (r: Result<String, CzError>)
        ensures
            r matches Ok(s) && s@ == spec_domain_xml(
                self.meta.name@,
                self.resource.memory as int,
                self.resource.cpus@,
                self.os.kernel@,
                opt_view(self.os.initram_fs),
                self.os.kcmdline@,
                self.os.rootfs@,
                self.meta.share_folder@,
                false,
            ),
    {
        Ok(
            render_domain_xml(
                self.meta.name.as_str(),
                self.resource.memory,
                &self.resource.cpus,
                self.os.kernel.as_str(),
                &self.os.initram_fs,
                self.os.kcmdline.as_str(),
                self.os.rootfs.as_str(),
                self.meta.share_folder.as_str(),
                false,
            ),
        )
    }

    /// Reflects a workdir-existence probe as an option of the workdir
    /// path.  The probe itself is the caller's: it is plain filesystem
    /// I/O.
    pub fn test_exists(&self, workdir_exists: bool) -> (r: Option<String>)
        ensures
            workdir_exists ==> (r matches Some(p) && p@ == self.meta.workdir@),
            !workdir_exists ==> r is None,
    {
        if workdir_exists {
            Some(self.meta.workdir.clone())
        } else {
            None
        }
    }

    /// Applies a new declared configuration to this zone and classifies the
    /// update.  The `meta` block is immutable: a request that changes it is
    /// refused untouched.  Otherwise the resource shape and then the boot
    /// specification are taken over where they differ (the rootfs and
    /// initramfs never change), the full configuration is re-persisted
    /// through `sync_f`, and the mode says what the caller must do: reboot
    /// when the boot spec changed, hot-apply when only resources changed,
    /// nothing when the request equals the current configuration.  Past the
    /// meta check the only failure is the persistence closure's own: with a
    /// persistence that cannot fail, the update cannot either.
    pub fn update_config<F: Fn(&ControlZone) -> Result<(), CzError>>(
        &mut self,
        new_cz: ControlZone,
        sync_f: F,
    ) -> (r: Result<UpdateMode, CzError>)
        requires
            forall|z: &ControlZone| #![auto] call_requires(sync_f, (z,)),
        ensures
            !meta_eq(new_cz.meta, old(self).meta) ==> r == Result::<UpdateMode, CzError>::Err(
                CzError::MetaImmutable,
            ) && *final(self) == *old(self),
            meta_eq(new_cz.meta, old(self).meta) ==> {
                let res_changed = !resource_eq(new_cz.resource, old(self).resource);
                let os_changed = !czos_eq(new_cz.os, old(self).os);
                &&& final(self).meta == old(self).meta
                &&& final(self).state == old(self).state
                &&& final(self).resource == if res_changed {
                    new_cz.resource
                } else {
                    old(self).resource
                }
                &&& final(self).os.kernel == if os_changed {
                    new_cz.os.kernel
                } else {
                    old(self).os.kernel
                }
                &&& final(self).os.kcmdline == if os_changed {
                    new_cz.os.kcmdline
                } else {
                    old(self).os.kcmdline
                }
                &&& final(self).os.rootfs == old(self).os.rootfs
                &&& final(self).os.initram_fs == old(self).os.initram_fs
                &&& r matches Ok(m) ==> m == (if os_changed {
                    UpdateMode::Reboot
                } else if res_changed {
                    UpdateMode::Hot
                } else {
                    UpdateMode::Stale
                })
                &&& r matches Ok(m) ==> step_ok(sync_f, *final(self))
                &&& r matches Err(e) ==> step_err(sync_f, old(self).meta, e)
            },
    {
        if !(new_cz.meta == self.meta) {
            return Err(CzError::MetaImmutable);
        }
        let mut mode = UpdateMode::Stale;
        let res_changed = !(new_cz.resource == self.resource);
        let os_changed = !(new_cz.os == self.os);
        if res_changed {
            match self.resource.update(new_cz.resource) {
                Ok(()) => {},
                Err(e) => {
                    return Err(e);
                },
            }
            mode = UpdateMode::Hot;
        }
        if os_changed {
            match self.os.update(new_cz.os) {
                Ok(()) => {},
                Err(e) => {
                    return Err(e);
                },
            }
            mode = UpdateMode::Reboot;
        }
        let zref: &ControlZone = &*self;
        let sres = sync_f(zref);
        proof {
            assert(call_ensures(sync_f, (zref,), sres));
        }
        match sres {
            Ok(()) => Ok(mode),
            Err(e) => Err(e),
        }
    }
}

impl ControlZone {
    /// Creates the zone's durable footprint: legal only from `Pending`; a
    /// repeated request on a `Created` zone is a no-op.  On proceed, the
    /// workdir is provisioned through `init_workdir_f`, which hands back the
    /// path of the copied boot image; the resolved configuration is
    /// persisted through `sync_config_f`, the `Created` state through
    /// `sync_state_f`, in that order.  Any failure rolls the workdir back
    /// through `delete_workdir_f` before the error propagates, the zone's
    /// state is then unchanged, and the error is one of the steps' own.
    pub fn create<
        I: Fn(&ControlZone) -> Result<String, CzError>,
        C: Fn(&ControlZone) -> Result<(), CzError>,
        S: Fn(&ControlZone, State) -> Result<(), CzError>,
        D: Fn(&ControlZone) -> Result<(), CzError>,
    >(
        &mut self,
        init_workdir_f: I,
        sync_config_f: C,
        sync_state_f: S,
        delete_workdir_f: D,
    ) -> (r: Result<(), CzError>)
        requires
            forall|z: &ControlZone| #![auto] call_requires(init_workdir_f, (z,)),
            forall|z: &ControlZone| #![auto] call_requires(sync_config_f, (z,)),
            forall|z: &ControlZone, st: State| #![auto] call_requires(sync_state_f, (z, st)),
            forall|z: &ControlZone| #![auto] call_requires(delete_workdir_f, (z,)),
        ensures
            old(self).state == State::Created ==> r is Ok && *final(self) == *old(self),
            old(self).state == State::Pending ==> {
                &&& final(self).meta == old(self).meta
                &&& final(self).resource == old(self).resource
                &&& final(self).os.kernel == old(self).os.kernel
                &&& final(self).os.kcmdline == old(self).os.kcmdline
                &&& final(self).os.initram_fs == old(self).os.initram_fs
                &&& r is Ok ==> {
                    let provisioned = ControlZone {
                        meta: final(self).meta,
                        os: final(self).os,
                        resource: final(self).resource,
                        state: State::Pending,
                    };
                    &&& final(self).state == State::Created
                    &&& provision_ok(init_workdir_f, *old(self), final(self).os.rootfs)
                    &&& step_ok(sync_config_f, provisioned)
                    &&& sync_ok(sync_state_f, provisioned, State::Created)
                }
                &&& r matches Err(e) ==> {
                    &&& final(self).state == State::Pending
                    &&& step_attempted(delete_workdir_f, old(self).meta)
                    &&& (provision_err(init_workdir_f, old(self).meta, e) || step_err(
                        sync_config_f,
                        old(self).meta,
                        e,
                    ) || sync_err(sync_state_f, old(self).meta, State::Created, e) || step_err(
                        delete_workdir_f,
                        old(self).meta,
                        e,
                    ))
                }
            },
            old(self).state != State::Created && old(self).state != State::Pending ==> r
                == Result::<(), CzError>::Err(
                CzError::IllegalTransition { from: old(self).state, to: State::Created },
            ) && *final(self) == *old(self),
    {
        let state = State::Created;
        match self.state.check_update(state) {
            Ok(true) => {
                return Ok(());
            },
            Ok(false) => {},
            Err(e) => {
                return Err(e);
            },
        }
        let iref: &ControlZone = &*self;
        let ires = init_workdir_f(iref);
        proof {
            assert(call_ensures(init_workdir_f, (iref,), ires));
        }
        match ires {
            Ok(rootfs) => {
                self.os.rootfs = rootfs;
            },
            Err(e) => {
                let rref: &ControlZone = &*self;
                let rres = delete_workdir_f(rref);
                proof {
                    assert(call_ensures(delete_workdir_f, (rref,), rres));
                }
                match rres {
                    Ok(()) => {},
                    Err(de) => {
                        return Err(de);
                    },
                }
                return Err(e);
            },
        }
        let cref: &ControlZone = &*self;
        let cres = sync_config_f(cref);
        proof {
            assert(call_ensures(sync_config_f, (cref,), cres));
        }
        match cres {
            Ok(()) => {},
            Err(e) => {
                let rref: &ControlZone = &*self;
                let rres = delete_workdir_f(rref);
                proof {
                    assert(call_ensures(delete_workdir_f, (rref,), rres));
                }
                match rres {
                    Ok(()) => {},
                    Err(de) => {
                        return Err(de);
                    },
                }
                return Err(e);
            },
        }
        let sref: &ControlZone = &*self;
        let syres = sync_state_f(sref, state);
        proof {
            assert(call_ensures(sync_state_f, (sref, state), syres));
        }
        match syres {
            Ok(()) => {},
            Err(e) => {
                let rref: &ControlZone = &*self;
                let rres = delete_workdir_f(rref);
                proof {
                    assert(call_ensures(delete_workdir_f, (rref,), rres));
                }
                match rres {
                    Ok(()) => {},
                    Err(de) => {
                        return Err(de);
                    },
                }
                return Err(e);
            },
        }
        self.state = state;
        Ok(())
    }

    /// Boots the zone: legal from `Created` or `Stopped`; a request on a
    /// running zone is a no-op.  Boot is delegated to `start_f`; with
    /// `wait`, `wait_f` then blocks until the guest signals readiness, after
    /// which the in-memory state is `Running`.  Without `wait` the state is
    /// left as it was: the guest daemon persists `Running` itself.  A failed
    /// start leaves the zone exactly as it was, with the backend's or the
    /// wait's own error.
    pub fn start<
        F: Fn(&ControlZone) -> Result<(), CzError>,
        W: Fn(&ControlZone) -> Result<State, CzError>,
    >(&mut self, wait: bool, start_f: F, wait_f: W) -> (r: Result<(), CzError>)
        requires
            forall|z: &ControlZone| #![auto] call_requires(start_f, (z,)),
            forall|z: &ControlZone| #![auto] call_requires(wait_f, (z,)),
        ensures
            old(self).state == State::Running ==> r is Ok && *final(self) == *old(self),
            transition_allowed(old(self).state, State::Running) ==> {
                &&& final(self).meta == old(self).meta
                &&& final(self).os == old(self).os
                &&& final(self).resource == old(self).resource
                &&& r is Ok && wait ==> final(self).state == State::Running && wait_ok(
                    wait_f,
                    *old(self),
                )
                &&& r is Ok && !wait ==> final(self).state == old(self).state
                &&& r is Ok ==> step_ok(start_f, *old(self))
                &&& r matches Err(e) ==> *final(self) == *old(self) && (step_err(
                    start_f,
                    old(self).meta,
                    e,
                ) || wait_err(wait_f, old(self).meta, e))
            },
            old(self).state != State::Running && !transition_allowed(old(self).state, State::Running)
                ==> r == Result::<(), CzError>::Err(
                CzError::IllegalTransition { from: old(self).state, to: State::Running },
            ) && *final(self) == *old(self),
    {
        let state = State::Running;
        match self.state.check_update(state) {
            Ok(true) => {
                return Ok(());
            },
            Ok(false) => {},
            Err(e) => {
                return Err(e);
            },
        }
        let bref: &ControlZone = &*self;
        let bres = start_f(bref);
        proof {
            assert(call_ensures(start_f, (bref,), bres));
        }
        match bres {
            Ok(()) => {},
            Err(e) => {
                return Err(e);
            },
        }
        if wait {
            let wref: &ControlZone = &*self;
            let wres = wait_f(wref);
            proof {
                assert(call_ensures(wait_f, (wref,), wres));
            }
            match wres {
                Ok(_) => {
                    self.state = State::Running;
                },
                Err(e) => {
                    return Err(e);
                },
            }
        }
        Ok(())
    }

    /// Stops the zone: legal only from `Running`; a request on a stopped
    /// zone is a no-op.  Teardown is delegated to `stop_f`; only after it
    /// returns success is `Stopped` persisted through `sync_state_f` and
    /// taken over in memory, so a failed stop leaves the prior state; any
    /// error is the backend's or the persistence's own.
    pub fn stop<
        F: Fn(&ControlZone) -> Result<(), CzError>,
        S: Fn(&ControlZone, State) -> Result<(), CzError>,
    >(&mut self, stop_f: F, sync_state_f: S) -> (r: Result<(), CzError>)
        requires
            forall|z: &ControlZone| #![auto] call_requires(stop_f, (z,)),
            forall|z: &ControlZone, st: State| #![auto] call_requires(sync_state_f, (z, st)),
        ensures
            old(self).state == State::Stopped ==> r is Ok && *final(self) == *old(self),
            old(self).state == State::Running ==> {
                &&& final(self).meta == old(self).meta
                &&& final(self).os == old(self).os
                &&& final(self).resource == old(self).resource
                &&& r is Ok ==> final(self).state == State::Stopped && step_ok(
                    stop_f,
                    *old(self),
                ) && sync_ok(sync_state_f, *old(self), State::Stopped)
                &&& r matches Err(e) ==> *final(self) == *old(self) && (step_err(
                    stop_f,
                    old(self).meta,
                    e,
                ) || sync_err(sync_state_f, old(self).meta, State::Stopped, e))
            },
            old(self).state != State::Stopped && old(self).state != State::Running ==> r
                == Result::<(), CzError>::Err(
                CzError::IllegalTransition { from: old(self).state, to: State::Stopped },
            ) && *final(self) == *old(self),
    {
        let state = State::Stopped;
        match self.state.check_update(state) {
            Ok(true) => {
                return Ok(());
            },
            Ok(false) => {},
            Err(e) => {
                return Err(e);
            },
        }
        let tref: &ControlZone = &*self;
        let tres = stop_f(tref);
        proof {
            assert(call_ensures(stop_f, (tref,), tres));
        }
        match tres {
            Ok(()) => {},
            Err(e) => {
                return Err(e);
            },
        }
        let ssref: &ControlZone = &*self;
        let ssres = sync_state_f(ssref, state);
        proof {
            assert(call_ensures(sync_state_f, (ssref, state), ssres));
        }
        match ssres {
            Ok(()) => {},
            Err(e) => {
                return Err(e);
            },
        }
        self.state = state;
        Ok(())
    }

    /// Removes the zone's durable footprint: legal from `Stopped` or
    /// `Created`; a request on a zombied zone is a no-op.  The workdir tree
    /// is deleted through `delete_workdir_f`; the new state is not
    /// persisted, since the state file was just deleted with the workdir.
    /// Any error is the deletion's own, and the state is then unchanged.
    pub fn remove<D: Fn(&ControlZone) -> Result<(), CzError>>(
        &mut self,
        delete_workdir_f: D,
    ) -> (r: Result<(), CzError>)
        requires
            forall|z: &ControlZone| #![auto] call_requires(delete_workdir_f, (z,)),
        ensures
            old(self).state == State::Zombied ==> r is Ok && *final(self) == *old(self),
            transition_allowed(old(self).state, State::Zombied) ==> {
                &&& final(self).meta == old(self).meta
                &&& final(self).os == old(self).os
                &&& final(self).resource == old(self).resource
                &&& r is Ok ==> final(self).state == State::Zombied && step_ok(
                    delete_workdir_f,
                    *old(self),
                )
                &&& r matches Err(e) ==> *final(self) == *old(self) && step_err(
                    delete_workdir_f,
                    old(self).meta,
                    e,
                )
            },
            old(self).state != State::Zombied && !transition_allowed(old(self).state, State::Zombied)
                ==> r == Result::<(), CzError>::Err(
                CzError::IllegalTransition { from: old(self).state, to: State::Zombied },
            ) && *final(self) == *old(self),
    {
        let state = State::Zombied;
        match self.state.check_update(state) {
            Ok(true) => {
                return Ok(());
            },
            Ok(false) => {},
            Err(e) => {
                return Err(e);
            },
        }
        let dref: &ControlZone = &*self;
        let dres = delete_workdir_f(dref);
        proof {
            assert(call_ensures(delete_workdir_f, (dref,), dres));
        }
        match dres {
            Ok(()) => {},
            Err(e) => {
                return Err(e);
            },
        }
        self.state = state;
        Ok(())
    }
}

} // verus!
