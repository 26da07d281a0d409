//! The guest boot specification of a control zone.

use vstd::prelude::*;

use crate::error::CzError;

verus! {

/// Equality of two optional strings by their text.
pub open spec fn opt_str_eq(a: Option<String>, b: Option<String>) -> bool {
    match (a, b) {
        (Option::None, Option::None) => true,
        (Option::Some(x), Option::Some(y)) => x@ == y@,
        _ => false,
    }
}

/// Kernel, optional initramfs, rootfs image and kernel command line of a
/// zone.  After provisioning, `rootfs` points at the copied image inside the
/// workdir.
#[derive(Debug)]
pub struct CZOS {
    pub kernel: String,
    pub initram_fs: Option<String>,
    pub rootfs: String,
    pub kcmdline: String,
}

/// Field-wise equality of two boot specifications.
pub open spec fn czos_eq(a: CZOS, b: CZOS) -> bool {
    &&& a.kernel@ == b.kernel@
    &&& opt_str_eq(a.initram_fs, b.initram_fs)
    &&& a.rootfs@ == b.rootfs@
    &&& a.kcmdline@ == b.kcmdline@
}

impl PartialEq for CZOS {
    fn eq(&self, o: &CZOS) -> (r: bool) {
        let initram_same = match (&self.initram_fs, &o.initram_fs) {
            (Option::None, Option::None) => true,
            (Option::Some(x), Option::Some(y)) => *x == *y,
            _ => false,
        };
        self.kernel == o.kernel && initram_same && self.rootfs == o.rootfs && self.kcmdline
            == o.kcmdline
    }
}

impl vstd::std_specs::cmp::PartialEqSpecImpl for CZOS {
    open spec fn obeys_eq_spec() -> bool {
        true
    }

    open spec fn eq_spec(&self, o: &CZOS) -> bool {
        czos_eq(*self, *o)
    }
}

impl CZOS {
    /// Takes the kernel and command line over from `new_os`.  A rootfs
    /// change is deliberately not supported and is ignored, as is the
    /// initramfs.
    pub fn update(&mut self, new_os: Self) -> (r: Result<(), CzError>)
        ensures
            r is Ok,
            final(self).kernel == new_os.kernel,
            final(self).kcmdline == new_os.kcmdline,
            final(self).rootfs == old(self).rootfs,
            final(self).initram_fs == old(self).initram_fs,
    {
        self.kernel = new_os.kernel;
        self.kcmdline = new_os.kcmdline;
        Ok(())
    }
}

} // verus!
