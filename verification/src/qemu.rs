//! The direct-process backend: QEMU invocation layout.
//!
//! This backend boots a zone by spawning the emulator itself, so the whole
//! backend contract is the argument list handed to it, plus the pid file
//! that `stop` later reads the child's pid from.

use vstd::prelude::*;

use crate::error::CzError;
use crate::text::{fmt_u32, fmt_usize, join_path, spec_dec};
use crate::zone::ControlZone;

verus! {

/// The direct-process virtualization backend.
pub struct Qemu {}

/// Where the spawned emulator's pid is recorded: `<workdir>/qpid`.
pub fn pid_file(workdir: &str) -> (r: Option<String>)
    ensures
        r matches Some(p) && p@ == workdir@ + "/"@ + "qpid"@,
{
    Some(join_path(workdir, "qpid"))
}

/// The exact emulator argument list that boots `cz`.  The backend has no
/// management plane to lease addresses from, so a zone without a static
/// network is refused.
pub fn qemu_start_argv(cz: &ControlZone) -> (r: Result<Vec<String>, CzError>)
    ensures
        cz.resource.static_net is None ==> r == Result::<Vec<String>, CzError>::Err(
            CzError::Runtime,
        ),
        cz.resource.static_net is Some ==> (r matches Ok(argv) && {
            &&& argv@.len() == 32
            &&& argv@[0]@ == "-enable-kvm"@
            &&& argv@[1]@ == "-display"@
            &&& argv@[2]@ == "none"@
            &&& argv@[3]@ == "-daemonize"@
            &&& argv@[4]@ == "-machine"@
            &&& argv@[5]@ == "pc"@
            &&& argv@[6]@ == "-cpu"@
            &&& argv@[7]@ == "host"@
            &&& argv@[8]@ == "-pidfile"@
            &&& argv@[9]@ == cz.meta.workdir@ + "/"@ + "qpid"@
            &&& argv@[10]@ == "-smp"@
            &&& argv@[11]@ == spec_dec(cz.resource.cpus@.len() as int)
            &&& argv@[12]@ == "-m"@
            &&& argv@[13]@ == spec_dec(cz.resource.memory as int)
            &&& argv@[14]@ == "-device"@
            &&& argv@[15]@ == "virtio-net-pci,netdev=net"@
            &&& argv@[16]@ == "-netdev"@
            &&& argv@[17]@ == "bridge,br=br0,id=net"@
            &&& argv@[18]@ == "-name"@
            &&& argv@[19]@ == cz.meta.name@
            &&& argv@[20]@ == "-device"@
            &&& argv@[21]@ == "virtio-9p-pci,fsdev=shared-folder,mount_tag=hostshare"@
            &&& argv@[22]@ == "-fsdev"@
            &&& argv@[23]@ == "local,id=shared-folder,path="@ + cz.meta.share_folder@
                + ",security_model=mapped"@
            &&& argv@[24]@ == "-device"@
            &&& argv@[25]@ == "virtio-blk-pci,drive=hd"@
            &&& argv@[26]@ == "-drive"@
            &&& argv@[27]@ == "file="@ + cz.os.rootfs@ + ",if=none,id=hd"@
            &&& argv@[28]@ == "-kernel"@
            &&& argv@[29]@ == cz.os.kernel@
            &&& argv@[30]@ == "-append"@
            &&& argv@[31]@ == cz.os.kcmdline@
        }),
{
    if cz.resource.static_net.is_none() {
        return Err(CzError::Runtime);
    }
    let pidf = match pid_file(cz.meta.workdir.as_str()) {
        Some(p) => p,
        None => {
            return Err(CzError::Runtime);
        },
    };
    let mut fsdev = String::from_str("local,id=shared-folder,path=");
    fsdev.append(cz.meta.share_folder.as_str());
    fsdev.append(",security_model=mapped");
    let mut drive = String::from_str("file=");
    drive.append(cz.os.rootfs.as_str());
    drive.append(",if=none,id=hd");
    let mut argv: Vec<String> = Vec::new();
    argv.push(String::from_str("-enable-kvm"));
    argv.push(String::from_str("-display"));
    argv.push(String::from_str("none"));
    argv.push(String::from_str("-daemonize"));
    argv.push(String::from_str("-machine"));
    argv.push(String::from_str("pc"));
    argv.push(String::from_str("-cpu"));
    argv.push(String::from_str("host"));
    argv.push(String::from_str("-pidfile"));
    argv.push(pidf);
    argv.push(String::from_str("-smp"));
    argv.push(fmt_usize(cz.resource.cpus.len()));
    argv.push(String::from_str("-m"));
    argv.push(fmt_u32(cz.resource.memory));
    argv.push(String::from_str("-device"));
    argv.push(String::from_str("virtio-net-pci,netdev=net"));
    argv.push(String::from_str("-netdev"));
    argv.push(String::from_str("bridge,br=br0,id=net"));
    argv.push(String::from_str("-name"));
    argv.push(cz.meta.name.clone());
    argv.push(String::from_str("-device"));
    argv.push(String::from_str("virtio-9p-pci,fsdev=shared-folder,mount_tag=hostshare"));
    argv.push(String::from_str("-fsdev"));
    argv.push(fsdev);
    argv.push(String::from_str("-device"));
    argv.push(String::from_str("virtio-blk-pci,drive=hd"));
    argv.push(String::from_str("-drive"));
    argv.push(drive);
    argv.push(String::from_str("-kernel"));
    argv.push(cz.os.kernel.clone());
    argv.push(String::from_str("-append"));
    argv.push(cz.os.kcmdline.clone());
    Ok(argv)
}

} // verus!
