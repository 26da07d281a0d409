use controlzone::kvm::kvm_dir_pid;
use controlzone::observe::VmMonitorInfo;
use controlzone::process::parse_libvirt_cgroup;

#[test]
fn moke_parse_libvirt_cgroup() {
    let cgroup =
        "0::/machine.slice/machine-qemu\\x2d32\\x2dcontrolzonedefault.scope/libvirt/emulator\n";

    let cg = parse_libvirt_cgroup(cgroup).unwrap();
    assert_eq!(
        cg,
        r"/machine.slice/machine-qemu\x2d32\x2dcontrolzonedefault.scope/libvirt"
    )
}

#[test]
fn cgroup_without_marker_or_leaf_is_kept() {
    assert_eq!(parse_libvirt_cgroup("/a/b").unwrap(), "/a/b");
    assert_eq!(parse_libvirt_cgroup("0::/a/b\n").unwrap(), "/a/b");
    assert_eq!(parse_libvirt_cgroup("/a/b/emulator").unwrap(), "/a/b");
    assert_eq!(parse_libvirt_cgroup("").unwrap(), "");
}

#[test]
fn kvm_debug_dir_names_encode_the_pid() {
    assert_eq!(kvm_dir_pid("4132-11"), Some(4132));
    assert_eq!(kvm_dir_pid("7-0"), Some(7));
    assert_eq!(kvm_dir_pid("abc-11"), None);
    assert_eq!(kvm_dir_pid("4132"), None);
    assert_eq!(kvm_dir_pid("4132-"), None);
    assert_eq!(kvm_dir_pid("4132-11-2"), None);
    assert_eq!(kvm_dir_pid("-11"), None);
}

fn info() -> VmMonitorInfo {
    VmMonitorInfo {
        pid: 900,
        kvm_debug_dir: String::from("900-11"),
        tasks: vec![900, 901],
        vm_id: 32,
        vm_name: String::from("controlzonedefault"),
        vm_cgroup: String::from("/machine.slice/x.scope/libvirt"),
    }
}

#[test]
fn monitor_record_matches_by_id_or_name() {
    let i = info();
    assert!(i.same_as("32"));
    assert!(!i.same_as("33"));
    assert!(i.same_as("controlzonedefault"));
    assert!(!i.same_as("other"));
    // A non-numeric word falls back to the name comparison.
    assert!(!i.same_as("32x"));
}
