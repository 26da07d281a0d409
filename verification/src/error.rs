//! Error taxonomy of the control-zone library.

use vstd::prelude::*;

use crate::state::State;

verus! {

/// Everything a lifecycle or parsing operation can fail with.
///
/// `IllegalTransition` carries the offending edge so callers can report
/// exactly which jump was refused.
#[derive(Debug, Copy, Clone, PartialEq, Eq, Structural)]
pub enum CzError {
    /// The declarative configuration could not be parsed or misses fields.
    Config,
    /// A zone was loaded by name although `create` never completed on it.
    NotCreated,
    /// The requested state is not reachable from the current state.
    IllegalTransition { from: State, to: State },
    /// An update tried to change the immutable `meta` block.
    MetaImmutable,
    /// Provisioning the workdir (directories, image copy) failed.
    Provisioning,
    /// The virtualization backend failed to start or stop the zone.
    Runtime,
    /// The readiness signal did not arrive before the timeout.
    WaitTimeout,
    /// A static network block misses one of address, netmask or gateway.
    InvalidStaticNet,
    /// A state sidecar file held text that names no lifecycle state.
    InvalidState,
}

} // verus!
