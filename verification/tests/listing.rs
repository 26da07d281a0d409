use controlzone::zone::UpdateMode;

#[test]
fn test_print() {
    println!(
        "{:16}{:10}{:10}{:10}{:6}{:16}",
        "NAME", "KERNEL", "CPUS", "STATUS", "ID", "IP"
    );

    println!(
        "{:16}{:10}{:10}{:10}{:6}{:16}",
        "test_cz", "cz_base", "100-124", "RUNNING", "10", "192.168.0.2"
    );

    let head = format!("{:16}{:10}{:10}{:10}", "NAME", "KERNEL", "CPUS", "STATUS");
    println!("{}{}", head, format!("{:6}{:16}", "ID", "IP"));

    let row = format!(
        "{:16}{:10}{:10}{:10}",
        "test_cz", "cz_base", "100-124", "RUNNING"
    );
    println!("{}{}", row, format!("{:<6}{:16}", 10, "192.168.0.2"))
}

#[test]
fn update_modes_are_distinct() {
    assert_ne!(UpdateMode::Reboot, UpdateMode::Hot);
    assert_ne!(UpdateMode::Hot, UpdateMode::Stale);
    assert_ne!(UpdateMode::Reboot, UpdateMode::Stale);
}
