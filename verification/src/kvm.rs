//! Reading VM identities out of the KVM debug filesystem's directory names.

use vstd::prelude::*;

use crate::text::{all_digits, is_digits, parse_u32, spec_parse_u32, spec_split, split_str};

verus! {

/// A VM the KVM debug filesystem knows: the owning process and the debug
/// directory it appears under.
#[derive(Debug, Clone)]
pub struct KVMInfo {
    pub pid: u32,
    pub kvm_debug_dir: String,
}

/// The process id a KVM debug directory name encodes.  A name is
/// `<pid>-<fd>`: two non-empty digit runs around one dash.
pub open spec fn spec_kvm_dir_pid(name: Seq<char>) -> Option<u32> {
    let parts = spec_split(name, '-');
    if parts.len() == 2 && parts[1].len() > 0 && all_digits(parts[1]) {
        spec_parse_u32(parts[0])
    } else {
        None
    }
}

/// Reads the owning process id out of a KVM debug directory name, per
/// [`spec_kvm_dir_pid`].
pub fn kvm_dir_pid(name: &str) -> (r: Option<u32>)
    ensures
        r == spec_kvm_dir_pid(name@),
{
    let parts = split_str(name, '-');
    if parts.len() != 2 {
        return None;
    }
    if !is_digits(parts[1].as_str()) {
        return None;
    }
    parse_u32(parts[0].as_str())
}

} // verus!
