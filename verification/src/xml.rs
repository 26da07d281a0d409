//! Rendering of the libvirt domain descriptor.
//!
//! The descriptor layout is golden-file-exact: backends consume it verbatim,
//! so the spec functions here state the rendered text character for
//! character.

use vstd::prelude::*;

use crate::text::{fmt_u32, fmt_usize, spec_dec};

verus! {

/// One vCPU pinning line.
pub open spec fn spec_pin_line(i: int, cpu: u32) -> Seq<char> {
    "<vcpupin vcpu='"@ + spec_dec(i) + "' cpuset='"@ + spec_dec(cpu as int) + "'/>\n"@
}

/// The first `k` pinning lines, vCPU numbers counting from zero.
pub open spec fn spec_pins_upto(cpus: Seq<u32>, k: int) -> Seq<char>
    decreases k,
{
    if k <= 0 {
        Seq::<char>::empty()
    } else {
        spec_pins_upto(cpus, k - 1) + spec_pin_line(k - 1, cpus[k - 1])
    }
}

/// The whole pinning table: one line per CPU index, in order.
pub open spec fn spec_pins(cpus: Seq<u32>) -> Seq<char> {
    spec_pins_upto(cpus, cpus.len() as int)
}

/// The rendered domain descriptor.  With `bridge_only` the network section
/// is the single bridge interface; otherwise it is the default-network NIC
/// followed by the bridge NIC.
pub open spec fn spec_domain_xml(
    name: Seq<char>,
    memory: int,
    cpus: Seq<u32>,
    kernel: Seq<char>,
    initram_fs: Option<Seq<char>>,
    kcmdline: Seq<char>,
    rootfs: Seq<char>,
    share_folder: Seq<char>,
    bridge_only: bool,
) -> Seq<char> {
    let head = "<domain type='kvm'>\n"@ + "<name>"@ + name + "</name>\n"@ + "<memory unit='MB'>"@
        + spec_dec(memory) + "</memory>\n"@ + "<vcpu placement='static'>"@ + spec_dec(
        cpus.len() as int,
    ) + "</vcpu>\n"@ + "<cputune>\n"@ + spec_pins(cpus) + "</cputune>\n"@
        + "<os>\n<type arch='x86_64' machine='pc-i440fx-jammy'>hvm</type>\n"@ + "<kernel>"@
        + kernel + "</kernel>\n"@;
    let with_initram = match initram_fs {
        Some(ir) => head + "<initrd>"@ + ir + "</initrd>\n"@,
        None => head,
    };
    let with_disk = with_initram + "<cmdline>"@ + kcmdline + "</cmdline>\n"@
        + "<boot dev='hd'/>\n<bootmenu enable='no'/>\n</os>\n<features>\n<acpi/>\n<apic/>\n<pae/>\n</features>\n<cpu mode='host-model' check='partial'/>\n<clock offset='utc'/>\n<on_poweroff>destroy</on_poweroff>\n<on_reboot>restart</on_reboot>\n<on_crash>destroy</on_crash>\n<devices>\n<emulator>/usr/bin/qemu-system-x86_64</emulator>\n<disk type='file' device='disk'>\n<driver name='qemu' type='qcow2'/>\n<source file='"@
        + rootfs
        + "'/>\n#<target dev='vda' bus='virtio'/>\n<alias name='ua-box-volume-0'/>\n<address type='pci' domain='0x0000' bus='0x00' slot='0x02' function='0x0'/>\n</disk>\n"@;
    let with_net = if bridge_only {
        with_disk
            + "<interface type='bridge'>\n<source bridge='br0'/>\n<model type='virtio'/>\n<alias name='ua-net-1'/>\n<address type='pci' domain='0x0000' bus='0x00' slot='0x05' function='0x0'/>\n</interface>\n"@
    } else {
        with_disk + "<interface type='network'>\n<domain name='"@ + name
            + "'/>\n<source network='default'/>\n<model type='virtio'/>\n<driver iommu='off'/>\n<alias name='ua-net-0'/>\n<address type='pci' domain='0x0000' bus='0x00' slot='0x04' function='0x0'/>\n</interface>\n<interface type='bridge'>\n<source bridge='br0'/>\n<model type='virtio'/>\n<alias name='ua-net-1'/>\n<address type='pci' domain='0x0000' bus='0x00' slot='0x05' function='0x0'/>\n</interface>\n"@
    };
    with_net
        + "<serial type='pty'>\n<target type='isa-serial' port='0'>\n<model name='isa-serial'/>\n</target>\n</serial>\n<console type='pty'>\n<target type='serial' port='0'/>\n</console>\n<input type='mouse' bus='ps2'/>\n<memballoon model='virtio'>\n<address type='pci' domain='0x0000' bus='0x00' slot='0x03' function='0x0'/>\n</memballoon>\n<filesystem type='mount' accessmode='mapped'>\n<source dir='"@
        + share_folder
        + "'/>\n<target dir='hostshare'/>\n<address type='pci' domain='0x0000' bus='0x00' slot='0x06' function='0x0'/>\n</filesystem>\n</devices>\n</domain>"@
}

/// The view of an optional string.
pub open spec fn opt_view(o: Option<String>) -> Option<Seq<char>> {
    match o {
        Some(s) => Some(s@),
        None => None,
    }
}

fn pin_line(i: usize, cpu: u32) -> (line: String)
    ensures
        line@ == spec_pin_line(i as int, cpu),
{
    let mut line = String::from_str("<vcpupin vcpu='");
    line.append(fmt_usize(i).as_str());
    line.append("' cpuset='");
    line.append(fmt_u32(cpu).as_str());
    line.append("'/>\n");
    line
}

/// Renders the domain descriptor, per [`spec_domain_xml`].
pub(crate) fn render_domain_xml(
    name: &str,
    memory: u32,
    cpus: &Vec<u32>,
    kernel: &str,
    initram_fs: &Option<String>,
    kcmdline: &str,
    rootfs: &str,
    share_folder: &str,
    bridge_only: bool,
) -> (r: String)
    ensures
        r@ == spec_domain_xml(
            name@,
            memory as int,
            cpus@,
            kernel@,
            opt_view(*initram_fs),
            kcmdline@,
            rootfs@,
            share_folder@,
            bridge_only,
        ),
{
    let mut s = String::from_str("<domain type='kvm'>\n");
    s.append("<name>");
    s.append(name);
    s.append("</name>\n");
    s.append("<memory unit='MB'>");
    s.append(fmt_u32(memory).as_str());
    s.append("</memory>\n");
    s.append("<vcpu placement='static'>");
    s.append(fmt_usize(cpus.len()).as_str());
    s.append("</vcpu>\n");
    s.append("<cputune>\n");
    let ghost before_pins = s@;
    let mut k: usize = 0;
    proof {
        assert(s@ =~= before_pins + spec_pins_upto(cpus@, 0));
    }
    while k < cpus.len()
        invariant
            k <= cpus@.len(),
            s@ == before_pins + spec_pins_upto(cpus@, k as int),
        decreases cpus@.len() - k,
    {
        let line = pin_line(k, cpus[k]);
        s.append(line.as_str());
        proof {
            assert(s@ =~= before_pins + spec_pins_upto(cpus@, k + 1));
        }
        k += 1;
    }
    s.append("</cputune>\n");
    s.append("<os>\n<type arch='x86_64' machine='pc-i440fx-jammy'>hvm</type>\n");
    s.append("<kernel>");
    s.append(kernel);
    s.append("</kernel>\n");
    proof {
        assert(s@ =~= "<domain type='kvm'>\n"@ + "<name>"@ + name@ + "</name>\n"@
            + "<memory unit='MB'>"@ + spec_dec(memory as int) + "</memory>\n"@
            + "<vcpu placement='static'>"@ + spec_dec(cpus@.len() as int) + "</vcpu>\n"@
            + "<cputune>\n"@ + spec_pins(cpus@) + "</cputune>\n"@
            + "<os>\n<type arch='x86_64' machine='pc-i440fx-jammy'>hvm</type>\n"@ + "<kernel>"@
            + kernel@ + "</kernel>\n"@);
    }
    if let Some(ir) = initram_fs {
        s.append("<initrd>");
        s.append(ir.as_str());
        s.append("</initrd>\n");
    }
    s.append("<cmdline>");
    s.append(kcmdline);
    s.append("</cmdline>\n");
    s.append(
        "<boot dev='hd'/>\n<bootmenu enable='no'/>\n</os>\n<features>\n<acpi/>\n<apic/>\n<pae/>\n</features>\n<cpu mode='host-model' check='partial'/>\n<clock offset='utc'/>\n<on_poweroff>destroy</on_poweroff>\n<on_reboot>restart</on_reboot>\n<on_crash>destroy</on_crash>\n<devices>\n<emulator>/usr/bin/qemu-system-x86_64</emulator>\n<disk type='file' device='disk'>\n<driver name='qemu' type='qcow2'/>\n<source file='",
    );
    s.append(rootfs);
    s.append(
        "'/>\n#<target dev='vda' bus='virtio'/>\n<alias name='ua-box-volume-0'/>\n<address type='pci' domain='0x0000' bus='0x00' slot='0x02' function='0x0'/>\n</disk>\n",
    );
    if bridge_only {
        s.append(
            "<interface type='bridge'>\n<source bridge='br0'/>\n<model type='virtio'/>\n<alias name='ua-net-1'/>\n<address type='pci' domain='0x0000' bus='0x00' slot='0x05' function='0x0'/>\n</interface>\n",
        );
    } else {
        s.append("<interface type='network'>\n<domain name='");
        s.append(name);
        s.append(
            "'/>\n<source network='default'/>\n<model type='virtio'/>\n<driver iommu='off'/>\n<alias name='ua-net-0'/>\n<address type='pci' domain='0x0000' bus='0x00' slot='0x04' function='0x0'/>\n</interface>\n<interface type='bridge'>\n<source bridge='br0'/>\n<model type='virtio'/>\n<alias name='ua-net-1'/>\n<address type='pci' domain='0x0000' bus='0x00' slot='0x05' function='0x0'/>\n</interface>\n",
        );
    }
    s.append(
        "<serial type='pty'>\n<target type='isa-serial' port='0'>\n<model name='isa-serial'/>\n</target>\n</serial>\n<console type='pty'>\n<target type='serial' port='0'/>\n</console>\n<input type='mouse' bus='ps2'/>\n<memballoon model='virtio'>\n<address type='pci' domain='0x0000' bus='0x00' slot='0x03' function='0x0'/>\n</memballoon>\n<filesystem type='mount' accessmode='mapped'>\n<source dir='",
    );
    s.append(share_folder);
    s.append(
        "'/>\n<target dir='hostshare'/>\n<address type='pci' domain='0x0000' bus='0x00' slot='0x06' function='0x0'/>\n</filesystem>\n</devices>\n</domain>",
    );
    proof {
        assert(s@ =~= spec_domain_xml(
            name@,
            memory as int,
            cpus@,
            kernel@,
            opt_view(*initram_fs),
            kcmdline@,
            rootfs@,
            share_folder@,
            bridge_only,
        ));
    }
    s
}

} // verus!
