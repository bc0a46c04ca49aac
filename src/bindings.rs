//! The binding slots of the simulation's compute bind group: which buffer
//! stands at which binding index, and how the compute shader may access it.

use vstd::prelude::*;
use crate::ping_pong::{other_side, PingPongSide};

verus! {

/// What a binding slot of the simulation's bind group holds.
#[derive(Clone, Copy, Debug, PartialEq, Eq, Structural)]
pub enum BindingRole {
    /// The particle state of the current frame.
    Particles,
    /// The particle state being computed for the next frame.
    NewParticles,
    /// The simulation parameters.
    SimParams,
    /// The per-instance render data written by the compute pass.
    Instances,
    /// The indirect-draw argument block written by the compute pass.
    IndirectArgs,
}

/// How the compute shader accesses a buffer binding.
#[derive(Clone, Copy, Debug, PartialEq, Eq, Structural)]
pub enum BufferAccess {
    ReadOnlyStorage,
    ReadWriteStorage,
    Uniform,
}

/// Number of binding slots in the simulation's bind group.
pub const BINDING_COUNT: usize = 5;

/// The binding index of each role.
pub open spec fn binding_index_spec(role: BindingRole) -> u32 {
    match role {
        BindingRole::Particles => 0,
        BindingRole::NewParticles => 1,
        BindingRole::SimParams => 2,
        BindingRole::Instances => 3,
        BindingRole::IndirectArgs => 4,
    }
}

/// The access of each role: the current particles are read only, the
/// parameters are a uniform, everything else is written.
pub open spec fn access_spec(role: BindingRole) -> BufferAccess {
    match role {
        BindingRole::Particles => BufferAccess::ReadOnlyStorage,
        BindingRole::SimParams => BufferAccess::Uniform,
        _ => BufferAccess::ReadWriteStorage,
    }
}

/// The particle buffer that fills a slot of the bind group reading from
/// `side`: that side for the current particles, the other for the new ones,
/// none for the other roles.
pub open spec fn particle_source_spec(side: PingPongSide, role: BindingRole) -> Option<
    PingPongSide,
> {
    match role {
        BindingRole::Particles => Some(side),
        BindingRole::NewParticles => Some(other_side(side)),
        _ => None,
    }
}

impl BindingRole {
    /// The binding index of this role in the bind group layout.
    pub fn binding_index(self) -> (r: u32)
        ensures
            r == binding_index_spec(self),
    {
        match self {
            BindingRole::Particles => 0,
            BindingRole::NewParticles => 1,
            BindingRole::SimParams => 2,
            BindingRole::Instances => 3,
            BindingRole::IndirectArgs => 4,
        }
    }

    /// How the compute shader accesses the buffer in this slot.
    pub fn access(self) -> (r: BufferAccess)
        ensures
            r == access_spec(self),
    {
        match self {
            BindingRole::Particles => BufferAccess::ReadOnlyStorage,
            BindingRole::SimParams => BufferAccess::Uniform,
            _ => BufferAccess::ReadWriteStorage,
        }
    }

    /// Which particle buffer fills this slot in the bind group that reads
    /// from `side`; `None` for the slots that hold no particle buffer.
    pub fn particle_source(self, side: PingPongSide) -> (r: Option<PingPongSide>)
        ensures
            r == particle_source_spec(side, self),
    {
        match self {
            BindingRole::Particles => Some(side),
            BindingRole::NewParticles => Some(side.other()),
            _ => None,
        }
    }
}

/// The roles of the simulation's bind group in binding order.
pub fn nbody_sim_binding_roles() -> (r: Vec<BindingRole>)
    ensures
        r@.len() == BINDING_COUNT,
        forall|i: int| 0 <= i < r@.len() ==> binding_index_spec(#[trigger] r@[i]) == i,
{
    let r = vec![
        BindingRole::Particles,
        BindingRole::NewParticles,
        BindingRole::SimParams,
        BindingRole::Instances,
        BindingRole::IndirectArgs,
    ];
    assert(r@[0] == BindingRole::Particles);
    r
}

/// Each slot of the bind group holds one role and each role one slot.
pub proof fn lemma_binding_indices_distinct(a: BindingRole, b: BindingRole)
    ensures
        binding_index_spec(a) < BINDING_COUNT,
        binding_index_spec(a) == binding_index_spec(b) <==> a == b,
{
}

/// In either bind group the two particle slots hold different buffers, so
/// the compute pass never reads the buffer it writes.
pub proof fn lemma_particle_slots_differ(side: PingPongSide)
    ensures
        particle_source_spec(side, BindingRole::Particles) != particle_source_spec(
            side,
            BindingRole::NewParticles,
        ),
{
}

} // verus!
