//! The resource shape of a control zone: CPU pinning, memory, and an
//! optional static network.

use vstd::prelude::*;

use crate::error::CzError;
use crate::util::{parse_cpuset_sorted, sorted_strict, spec_cpuset};

verus! {

/// A statically configured guest network.
#[derive(Debug)]
pub struct StaticNet {
    pub address: String,
    pub netmask: String,
    pub gateway: String,
}

/// Field-wise equality of two static network blocks.
pub open spec fn static_net_eq(a: StaticNet, b: StaticNet) -> bool {
    &&& a.address@ == b.address@
    &&& a.netmask@ == b.netmask@
    &&& a.gateway@ == b.gateway@
}

impl PartialEq for StaticNet {
    fn eq(&self, o: &StaticNet) -> (r: bool) {
        self.address == o.address && self.netmask == o.netmask && self.gateway == o.gateway
    }
}

impl vstd::std_specs::cmp::PartialEqSpecImpl for StaticNet {
    open spec fn obeys_eq_spec() -> bool {
        true
    }

    open spec fn eq_spec(&self, o: &StaticNet) -> bool {
        static_net_eq(*self, *o)
    }
}

/// The interface configuration file a static network renders to: a loopback
/// interface and one statically addressed `eth0`.
pub open spec fn spec_interface_cfg(addr: Seq<char>, mask: Seq<char>, gw: Seq<char>) -> Seq<char> {
    "iface lo inet loopback\niface eth0 inet static\n    address "@ + addr
        + "\n    netmask "@ + mask + "\n    gateway "@ + gw
}

impl StaticNet {
    /// Renders the `info/static_net` file.  A block with an empty address,
    /// netmask or gateway is refused; a complete block always renders.
    pub fn to_interface_cfg(&self) -> (r: Result<String, CzError>)
        ensures
            self.address@.len() == 0 || self.netmask@.len() == 0 || self.gateway@.len() == 0
                <==> r == Result::<String, CzError>::Err(CzError::InvalidStaticNet),
            self.address@.len() > 0 && self.netmask@.len() > 0 && self.gateway@.len() > 0 ==> (
            r matches Ok(s) && s@ == spec_interface_cfg(self.address@, self.netmask@, self.gateway@)),
    {
        if self.address.as_str().is_empty() || self.netmask.as_str().is_empty()
            || self.gateway.as_str().is_empty() {
            return Err(CzError::InvalidStaticNet);
        }
        let mut s = String::from_str("iface lo inet loopback\niface eth0 inet static\n    address ");
        s.append(self.address.as_str());
        s.append("\n    netmask ");
        s.append(self.netmask.as_str());
        s.append("\n    gateway ");
        s.append(self.gateway.as_str());
        Ok(s)
    }
}

/// Equality of two optional static network blocks.
pub open spec fn opt_static_net_eq(a: Option<StaticNet>, b: Option<StaticNet>) -> bool {
    match (a, b) {
        (Option::None, Option::None) => true,
        (Option::Some(x), Option::Some(y)) => static_net_eq(x, y),
        _ => false,
    }
}

/// The resource shape: the declared cpuset string, the memory size in MB,
/// an optional static network, and the CPU indices the cpuset expands to.
#[derive(Debug)]
pub struct Resource {
    pub cpuset: String,
    pub memory: u32,
    pub static_net: Option<StaticNet>,
    pub cpus: Vec<u32>,
}

/// Field-wise equality of two resource shapes.
pub open spec fn resource_eq(a: Resource, b: Resource) -> bool {
    &&& a.cpuset@ == b.cpuset@
    &&& a.memory == b.memory
    &&& opt_static_net_eq(a.static_net, b.static_net)
    &&& a.cpus@ == b.cpus@
}

/// Element-wise equality of two index vectors.
fn vec_u32_eq(a: &Vec<u32>, b: &Vec<u32>) -> (r: bool)
    ensures
        r == (a@ == b@),
{
    if a.len() != b.len() {
        return false;
    }
    let mut i: usize = 0;
    while i < a.len()
        invariant
            i <= a@.len(),
            a@.len() == b@.len(),
            forall|j: int| 0 <= j < i ==> a@[j] == b@[j],
        decreases a@.len() - i,
    {
        if a[i] != b[i] {
            return false;
        }
        i += 1;
    }
    proof {
        assert(a@ =~= b@);
    }
    true
}

impl PartialEq for Resource {
    fn eq(&self, o: &Resource) -> (r: bool) {
        let net_same = match (&self.static_net, &o.static_net) {
            (Option::None, Option::None) => true,
            (Option::Some(x), Option::Some(y)) => x == y,
            _ => false,
        };
        self.cpuset == o.cpuset && self.memory == o.memory && net_same && vec_u32_eq(
            &self.cpus,
            &o.cpus,
        )
    }
}

impl vstd::std_specs::cmp::PartialEqSpecImpl for Resource {
    open spec fn obeys_eq_spec() -> bool {
        true
    }

    open spec fn eq_spec(&self, o: &Resource) -> bool {
        resource_eq(*self, *o)
    }
}

impl Resource {
    /// Expands the declared cpuset string into the ordered set of CPU
    /// indices, leaving every other field alone.
    pub fn gen_cpus(&mut self)
        ensures
            sorted_strict(final(self).cpus@),
            forall|x: u32|
                final(self).cpus@.contains(x) <==> spec_cpuset(old(self).cpuset@).contains(x),
            final(self).cpuset == old(self).cpuset,
            final(self).memory == old(self).memory,
            final(self).static_net == old(self).static_net,
    {
        self.cpus = parse_cpuset_sorted(self.cpuset.as_str());
    }

    /// Replaces the whole resource shape with `new`.
    pub fn update(&mut self, new: Self) -> (r: Result<(), CzError>)
        ensures
            r is Ok,
            final(self).cpuset == new.cpuset,
            final(self).cpus == new.cpus,
            final(self).memory == new.memory,
            final(self).static_net == new.static_net,
    {
        self.cpuset = new.cpuset;
        self.cpus = new.cpus;
        self.memory = new.memory;
        self.static_net = new.static_net;
        Ok(())
    }
}

} // verus!
