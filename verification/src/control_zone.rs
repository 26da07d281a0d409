//! The older single-file zone model, kept for the descriptor-generation
//! path: a declared zone with optional identity, and its fully resolved
//! counterpart.

use vstd::prelude::*;

use crate::error::CzError;
use crate::xml::{opt_view, render_domain_xml, spec_domain_xml};

verus! {

/// Identity of a declared zone: name and on-disk locations.
#[derive(Debug)]
pub struct Meta {
    pub name: String,
    pub workdir: String,
    pub share_folder: String,
}

/// Guest boot specification.
#[derive(Debug)]
pub struct OS {
    pub kernel: String,
    pub initram_fs: Option<String>,
    pub rootfs: String,
    pub kcmdline: String,
}

/// Declared resource shape: the cpuset string, optionally its expansion.
#[derive(Debug)]
pub struct Resource {
    pub cpuset: String,
    pub cpus: Option<Vec<u32>>,
    pub memory: u32,
    pub share_path: Option<String>,
}

/// A zone as declared by the user, identity optional.
#[derive(Debug)]
pub struct ControlZone {
    pub meta: Option<Meta>,
    pub os: OS,
    pub resource: Resource,
}

/// Resolved resource shape: concrete CPU indices and memory.
#[derive(Debug)]
pub struct ResourceInner {
    pub cpus: Vec<u32>,
    pub memory: u32,
}

/// A fully resolved zone: identity filled in, cpuset expanded.
#[derive(Debug)]
pub struct ControlZoneInner {
    pub meta: Meta,
    pub os: OS,
    pub resource: ResourceInner,
}

impl ControlZoneInner {
    /// Renders this zone's domain descriptor, always with the dual-NIC
    /// network block.
    pub fn to_xml(&self) -> (r: Result<String, CzError>)
        ensures
            r matches Ok(s) && s@ == spec_domain_xml(
                self.meta.name@,
                self.resource.memory as int,
                self.resource.cpus@,
                self.os.kernel@,
                opt_view(self.os.initram_fs),
                self.os.kcmdline@,
                self.os.rootfs@,
                self.meta.share_folder@,
                false,
            ),
    {
        Ok(
            render_domain_xml(
                self.meta.name.as_str(),
                self.resource.memory,
                &self.resource.cpus,
                self.os.kernel.as_str(),
                &self.os.initram_fs,
                self.os.kcmdline.as_str(),
                self.os.rootfs.as_str(),
                self.meta.share_folder.as_str(),
                false,
            ),
        )
    }
}

} // verus!
