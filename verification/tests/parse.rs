use std::collections::BTreeSet;

use controlzone::util::{parse_cpuset, parse_cpuset_sorted};

#[test]
fn test_parse_cpuset() {
    let cpu_set = "0,3";
    let cpus = parse_cpuset(cpu_set);
    assert_eq!(cpus, BTreeSet::from_iter(vec![0, 3]));

    let cpu_set = "0-3";
    let cpus = parse_cpuset(cpu_set);
    assert_eq!(cpus, BTreeSet::from_iter(vec![0, 1, 2, 3]));

    let cpu_set = "0-3,4,6-7";
    let cpus = parse_cpuset(cpu_set);
    assert_eq!(cpus, BTreeSet::from_iter(vec![0, 1, 2, 3, 4, 6, 7]));

    let cpu_set = "0-3, 0-3";
    let cpus = parse_cpuset(cpu_set);
    assert_eq!(cpus, BTreeSet::from_iter(vec![0, 1, 2, 3]));
}

#[test]
fn test_test_parse_cpuset() {
    let cpu_set = "0,3";
    let cpus = parse_cpuset(cpu_set);
    assert_eq!(cpus, BTreeSet::from_iter(vec![0, 3]));

    let cpu_set = "0-3";
    let cpus = parse_cpuset(cpu_set);
    assert_eq!(cpus, BTreeSet::from_iter(vec![0, 1, 2, 3]));

    let cpu_set = "0-3,4,6-7";
    let cpus = parse_cpuset(cpu_set);
    assert_eq!(cpus, BTreeSet::from_iter(vec![0, 1, 2, 3, 4, 6, 7]));

    let cpu_set = "0-3, 0-3";
    let cpus = parse_cpuset(cpu_set);
    assert_eq!(cpus, BTreeSet::from_iter(vec![0, 1, 2, 3]));
}

#[test]
fn control_zone_test_parse_cpuset() {
    let cpu_set = "0,3";
    let cpus = parse_cpuset(cpu_set);
    assert_eq!(cpus, BTreeSet::from_iter(vec![0, 3]));

    let cpu_set = "0-3";
    let cpus = parse_cpuset(cpu_set);
    assert_eq!(cpus, BTreeSet::from_iter(vec![0, 1, 2, 3]));

    let cpu_set = "0-3,4,6-7";
    let cpus = parse_cpuset(cpu_set);
    assert_eq!(cpus, BTreeSet::from_iter(vec![0, 1, 2, 3, 4, 6, 7]));

    let cpu_set = "0-3, 0-3";
    let cpus = parse_cpuset(cpu_set);
    assert_eq!(cpus, BTreeSet::from_iter(vec![0, 1, 2, 3]));
}

#[test]
fn parse_cpuset_sorted_orders_and_dedups() {
    assert_eq!(parse_cpuset_sorted("6-7,4,0-3"), vec![0, 1, 2, 3, 4, 6, 7]);
    assert_eq!(parse_cpuset_sorted("3,3,3"), vec![3]);
    assert_eq!(parse_cpuset_sorted(""), Vec::<u32>::new());
}

#[test]
fn parse_cpuset_skips_malformed_tokens() {
    // Tokens that are neither an index nor a well-formed range are skipped.
    assert_eq!(parse_cpuset("a,1,2-b,3"), BTreeSet::from_iter(vec![1, 3]));
    assert_eq!(parse_cpuset("1-2-3,5"), BTreeSet::from_iter(vec![5]));
    assert_eq!(parse_cpuset("-,4"), BTreeSet::from_iter(vec![4]));
}

#[test]
fn parse_cpuset_empty_range_when_start_exceeds_end() {
    // A reversed range denotes nothing.
    assert_eq!(parse_cpuset("3-0"), BTreeSet::new());
    assert_eq!(parse_cpuset("3-0,9"), BTreeSet::from_iter(vec![9]));
}
