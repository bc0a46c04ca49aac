use nbody_core::bindings::{nbody_sim_binding_roles, BindingRole, BufferAccess, BINDING_COUNT};
use nbody_core::ping_pong::PingPongSide;

#[test]
fn roles_come_in_binding_order() {
    let roles = nbody_sim_binding_roles();
    assert_eq!(roles.len(), BINDING_COUNT);
    assert_eq!(
        roles,
        vec![
            BindingRole::Particles,
            BindingRole::NewParticles,
            BindingRole::SimParams,
            BindingRole::Instances,
            BindingRole::IndirectArgs,
        ]
    );
    for (i, role) in roles.iter().enumerate() {
        assert_eq!(role.binding_index() as usize, i);
    }
}

#[test]
fn access_of_each_slot() {
    assert_eq!(BindingRole::Particles.access(), BufferAccess::ReadOnlyStorage);
    assert_eq!(BindingRole::NewParticles.access(), BufferAccess::ReadWriteStorage);
    assert_eq!(BindingRole::SimParams.access(), BufferAccess::Uniform);
    assert_eq!(BindingRole::Instances.access(), BufferAccess::ReadWriteStorage);
    assert_eq!(BindingRole::IndirectArgs.access(), BufferAccess::ReadWriteStorage);
}

#[test]
fn bind_group_a_reads_a_writes_b() {
    assert_eq!(BindingRole::Particles.particle_source(PingPongSide::A), Some(PingPongSide::A));
    assert_eq!(BindingRole::NewParticles.particle_source(PingPongSide::A), Some(PingPongSide::B));
}

#[test]
fn bind_group_b_reads_b_writes_a() {
    assert_eq!(BindingRole::Particles.particle_source(PingPongSide::B), Some(PingPongSide::B));
    assert_eq!(BindingRole::NewParticles.particle_source(PingPongSide::B), Some(PingPongSide::A));
}

#[test]
fn other_slots_hold_no_particle_buffer() {
    for side in [PingPongSide::A, PingPongSide::B] {
        assert_eq!(BindingRole::SimParams.particle_source(side), None);
        assert_eq!(BindingRole::Instances.particle_source(side), None);
        assert_eq!(BindingRole::IndirectArgs.particle_source(side), None);
    }
}
