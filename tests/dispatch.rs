use nbody_core::dispatch::{workgroup_count, WORKGROUP_SIZE};

#[test]
fn no_particles_no_workgroups() {
    assert_eq!(workgroup_count(0), 0);
}

#[test]
fn one_particle_one_workgroup() {
    assert_eq!(workgroup_count(1), 1);
}

#[test]
fn exact_multiple_of_workgroup_size() {
    assert_eq!(WORKGROUP_SIZE, 64);
    assert_eq!(workgroup_count(64), 1);
    assert_eq!(workgroup_count(128), 2);
}

#[test]
fn partial_workgroup_rounds_up() {
    assert_eq!(workgroup_count(63), 1);
    assert_eq!(workgroup_count(65), 2);
    assert_eq!(workgroup_count(10), 1);
    assert_eq!(workgroup_count(1000), 16);
}

#[test]
fn largest_count_does_not_overflow() {
    assert_eq!(workgroup_count(u32::MAX), 67_108_864);
    assert_eq!(workgroup_count(u32::MAX - 63), 67_108_863);
}

#[test]
fn every_particle_gets_an_invocation() {
    for n in [0u32, 1, 2, 63, 64, 65, 127, 128, 129, 4095, 4096, 4097] {
        let groups = workgroup_count(n) as u64;
        assert!(groups * 64 >= n as u64);
        assert!(groups * 64 < n as u64 + 64);
    }
}
