//! Control-zone lifecycle library.
//!
//! A control zone is a lightweight virtual machine described by a declarative
//! configuration: an identity (`Meta`), a guest boot specification (`CZOS`),
//! and a resource shape (`Resource`).  The library models the zone's lifecycle
//! as a checked state machine, renders the artifacts a virtualization backend
//! consumes (domain descriptors, interface configuration), and contains the
//! decision logic of the guest-side pod event pipeline.  All effects on disk
//! and on the virtualization backend are performed by the caller through
//! closures whose outcomes the contracts here constrain.

pub mod commands;
pub mod control_zone;
pub mod czos;
pub mod error;
pub mod guest;
pub mod kvm;
pub mod libvirt;
pub mod meta;
pub mod observe;
pub mod process;
pub mod qemu;
pub mod resource;
pub mod state;
pub mod text;
pub mod util;
pub mod vruntime;
pub mod watcher;
pub mod worker;
pub mod xml;
pub mod zone;

pub use state::State;
pub use zone::{default_workdir, UpdateMode};
