//! Monitoring bookkeeping: which VM a monitor record describes.

use vstd::prelude::*;

use crate::text::{parse_u32, spec_parse_u32};

verus! {

/// The monitoring mechanisms a VM can be observed with.
#[derive(Debug, Copy, Clone, PartialEq, Eq, Structural)]
pub enum Monitor {
    Resctrl,
    Ebpf,
}

/// Everything needed to set monitoring up for one running VM.
#[derive(Debug, Clone)]
pub struct VmMonitorInfo {
    pub pid: u32,
    pub kvm_debug_dir: String,
    pub tasks: Vec<u32>,
    pub vm_id: u32,
    pub vm_name: String,
    pub vm_cgroup: String,
}

impl VmMonitorInfo {
    /// Does the operator's word name this VM?  A decimal word selects by
    /// id, any other by name.
    pub fn same_as(&self, s: &str) -> (r: bool)
        ensures
            r == match spec_parse_u32(s@) {
                Some(id) => self.vm_id == id,
                None => self.vm_name@ == s@,
            },
    {
        match parse_u32(s) {
            Some(id) => self.vm_id == id,
            None => crate::text::str_eq(self.vm_name.as_str(), s),
        }
    }
}

} // verus!
