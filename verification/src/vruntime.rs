//! Choice of virtualization backend.

use vstd::prelude::*;

verus! {

/// Which virtualization backend boots and stops zones.  Chosen once at
/// process start; swapping backends for an existing zone means recreating
/// it.
#[derive(Debug, Copy, Clone, PartialEq, Eq, PartialOrd, Ord, Structural)]
pub enum VRuntimeType {
    /// The hypervisor-management backend.
    Libvirt,
    /// The direct-process backend.
    Qemu,
    /// A reserved slot for a future backend.
    CloudHyper,
}

} // verus!
