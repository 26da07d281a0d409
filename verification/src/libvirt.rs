//! The libvirt backend's descriptor rendering.

use vstd::prelude::*;

use crate::error::CzError;
use crate::xml::{opt_view, render_domain_xml, spec_domain_xml};
use crate::zone::ControlZone;

verus! {

/// A guest interface as the management plane reports it: the addresses
/// leased to it, in report order.
#[derive(Debug)]
pub struct Interface {
    pub addrs: Vec<String>,
}

/// The address a zone is reached under: the first address of the first
/// reported interface.  An empty report is an error; the caller retries it
/// during the readiness wait.
pub fn first_ip(interfaces: &Vec<Interface>) -> (r: Result<String, CzError>)
    ensures
        interfaces@.len() == 0 ==> r == Result::<String, CzError>::Err(CzError::Runtime),
        interfaces@.len() > 0 && interfaces@[0].addrs@.len() == 0 ==> r == Result::<
            String,
            CzError,
        >::Err(CzError::Runtime),
        interfaces@.len() > 0 && interfaces@[0].addrs@.len() > 0 ==> (r matches Ok(ip) && ip@
            == interfaces@[0].addrs@[0]@),
{
    if interfaces.len() == 0 {
        return Err(CzError::Runtime);
    }
    let first = &interfaces[0];
    if first.addrs.len() == 0 {
        return Err(CzError::Runtime);
    }
    Ok(first.addrs[0].clone())
}

/// Renders a zone's libvirt domain descriptor.  With a static network
/// configured the network section is the single bridge interface; without
/// one it is the default-network NIC followed by the bridge NIC.
pub fn cz_to_xml(cz: &ControlZone) -> (r: Result<String, CzError>)
    ensures
        r matches Ok(s) && s@ == spec_domain_xml(
            cz.meta.name@,
            cz.resource.memory as int,
            cz.resource.cpus@,
            cz.os.kernel@,
            opt_view(cz.os.initram_fs),
            cz.os.kcmdline@,
            cz.os.rootfs@,
            cz.meta.share_folder@,
            cz.resource.static_net is Some,
        ),
{
    let bridge_only = cz.resource.static_net.is_some();
    Ok(
        render_domain_xml(
            cz.meta.name.as_str(),
            cz.resource.memory,
            &cz.resource.cpus,
            cz.os.kernel.as_str(),
            &cz.os.initram_fs,
            cz.os.kcmdline.as_str(),
            cz.os.rootfs.as_str(),
            cz.meta.share_folder.as_str(),
            bridge_only,
        ),
    )
}

} // verus!
