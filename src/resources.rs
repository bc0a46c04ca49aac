//! The GPU resources of the simulation: the two particle buffers, the
//! parameter, instance and indirect buffers, the particle mesh, and the two
//! bind groups between which the frame counter chooses.

use vstd::prelude::*;
use crate::indirect_args::GpuIndirectArgs;
use crate::ping_pong::{side_of_frame, PingPongSide, select};

verus! {

/// A GPU buffer handle; opaque here, carried through unchanged.
#[verifier::external_type_specification]
#[verifier::external_body]
pub struct ExBuffer(wgpu::Buffer);

/// A GPU bind group handle; opaque here, carried through unchanged.
#[verifier::external_type_specification]
#[verifier::external_body]
pub struct ExBindGroup(wgpu::BindGroup);

/// The mesh drawn once per particle: its vertex and index buffers, the
/// number of indices, and the bind group of its material.
pub struct ParticleMesh {
    pub vertex_buffer: wgpu::Buffer,
    pub index_buffer: wgpu::Buffer,
    pub index_count: u32,
    pub material_bind_group: wgpu::BindGroup,
}

/// Everything the simulation keeps on the GPU, and the frame counter whose
/// parity picks the bind group of the current frame.
///
/// Bind group A reads particle buffer A and writes B; bind group B reads B
/// and writes A.
pub struct NBodySimResources {
    particle_count: u32,
    particle_buffer_a: wgpu::Buffer,
    particle_buffer_b: wgpu::Buffer,
    sim_params_buffer: wgpu::Buffer,
    instance_buffer: wgpu::Buffer,
    indirect_buffer: wgpu::Buffer,
    mesh: ParticleMesh,
    bind_group_a: wgpu::BindGroup,
    bind_group_b: wgpu::BindGroup,
    frame_count: u32,
}

impl NBodySimResources {
    pub closed spec fn particle_count_spec(&self) -> u32 {
        self.particle_count
    }

    pub closed spec fn frame_count_spec(&self) -> u32 {
        self.frame_count
    }

    pub closed spec fn index_count_spec(&self) -> u32 {
        self.mesh.index_count
    }

    pub closed spec fn particle_buffer_a_spec(&self) -> wgpu::Buffer {
        self.particle_buffer_a
    }

    pub closed spec fn particle_buffer_b_spec(&self) -> wgpu::Buffer {
        self.particle_buffer_b
    }

    pub closed spec fn sim_params_buffer_spec(&self) -> wgpu::Buffer {
        self.sim_params_buffer
    }

    pub closed spec fn instance_buffer_spec(&self) -> wgpu::Buffer {
        self.instance_buffer
    }

    pub closed spec fn indirect_buffer_spec(&self) -> wgpu::Buffer {
        self.indirect_buffer
    }

    pub closed spec fn vertex_buffer_spec(&self) -> wgpu::Buffer {
        self.mesh.vertex_buffer
    }

    pub closed spec fn index_buffer_spec(&self) -> wgpu::Buffer {
        self.mesh.index_buffer
    }

    pub closed spec fn material_bind_group_spec(&self) -> wgpu::BindGroup {
        self.mesh.material_bind_group
    }

    pub closed spec fn bind_group_a_spec(&self) -> wgpu::BindGroup {
        self.bind_group_a
    }

    pub closed spec fn bind_group_b_spec(&self) -> wgpu::BindGroup {
        self.bind_group_b
    }

    /// The bind group of frame `frame_count`: A on even frames, B on odd.
    pub open spec fn bind_group_of_frame(&self, frame_count: u32) -> wgpu::BindGroup {
        match side_of_frame(frame_count as int) {
            PingPongSide::A => self.bind_group_a_spec(),
            PingPongSide::B => self.bind_group_b_spec(),
        }
    }

    /// Everything but the frame counter is the same in `self` and `other`.
    pub open spec fn same_resources(&self, other: &Self) -> bool {
        &&& self.particle_count_spec() == other.particle_count_spec()
        &&& self.index_count_spec() == other.index_count_spec()
        &&& self.particle_buffer_a_spec() == other.particle_buffer_a_spec()
        &&& self.particle_buffer_b_spec() == other.particle_buffer_b_spec()
        &&& self.sim_params_buffer_spec() == other.sim_params_buffer_spec()
        &&& self.instance_buffer_spec() == other.instance_buffer_spec()
        &&& self.indirect_buffer_spec() == other.indirect_buffer_spec()
        &&& self.vertex_buffer_spec() == other.vertex_buffer_spec()
        &&& self.index_buffer_spec() == other.index_buffer_spec()
        &&& self.material_bind_group_spec() == other.material_bind_group_spec()
        &&& self.bind_group_a_spec() == other.bind_group_a_spec()
        &&& self.bind_group_b_spec() == other.bind_group_b_spec()
    }

    /// Gathers the resources of a simulation of `particle_count` particles,
    /// with the frame counter at zero.
    pub fn new(
        particle_count: u32,
        particle_buffer_a: wgpu::Buffer,
        particle_buffer_b: wgpu::Buffer,
        sim_params_buffer: wgpu::Buffer,
        instance_buffer: wgpu::Buffer,
        indirect_buffer: wgpu::Buffer,
        mesh: ParticleMesh,
        bind_group_a: wgpu::BindGroup,
        bind_group_b: wgpu::BindGroup,
    ) -> (r: Self)
        ensures
            r.particle_count_spec() == particle_count,
            r.frame_count_spec() == 0,
            r.index_count_spec() == mesh.index_count,
            r.particle_buffer_a_spec() == particle_buffer_a,
            r.particle_buffer_b_spec() == particle_buffer_b,
            r.sim_params_buffer_spec() == sim_params_buffer,
            r.instance_buffer_spec() == instance_buffer,
            r.indirect_buffer_spec() == indirect_buffer,
            r.vertex_buffer_spec() == mesh.vertex_buffer,
            r.index_buffer_spec() == mesh.index_buffer,
            r.material_bind_group_spec() == mesh.material_bind_group,
            r.bind_group_a_spec() == bind_group_a,
            r.bind_group_b_spec() == bind_group_b,
    {
        NBodySimResources {
            particle_count,
            particle_buffer_a,
            particle_buffer_b,
            sim_params_buffer,
            instance_buffer,
            indirect_buffer,
            mesh,
            bind_group_a,
            bind_group_b,
            frame_count: 0,
        }
    }

    /// The number of simulated particles.
    pub fn get_particle_count(&self) -> (r: u32)
        ensures
            r == self.particle_count_spec(),
    {
        self.particle_count
    }

    pub fn get_vertex_buffer(&self) -> (r: &wgpu::Buffer)
        ensures
            *r == self.vertex_buffer_spec(),
    {
        &self.mesh.vertex_buffer
    }

    pub fn get_index_buffer(&self) -> (r: &wgpu::Buffer)
        ensures
            *r == self.index_buffer_spec(),
    {
        &self.mesh.index_buffer
    }

    pub fn get_particle_buffer_a(&self) -> (r: &wgpu::Buffer)
        ensures
            *r == self.particle_buffer_a_spec(),
    {
        &self.particle_buffer_a
    }

    pub fn get_particle_buffer_b(&self) -> (r: &wgpu::Buffer)
        ensures
            *r == self.particle_buffer_b_spec(),
    {
        &self.particle_buffer_b
    }

    pub fn get_sim_params_buffer(&self) -> (r: &wgpu::Buffer)
        ensures
            *r == self.sim_params_buffer_spec(),
    {
        &self.sim_params_buffer
    }

    pub fn get_instance_buffer(&self) -> (r: &wgpu::Buffer)
        ensures
            *r == self.instance_buffer_spec(),
    {
        &self.instance_buffer
    }

    pub fn get_indirect_buffer(&self) -> (r: &wgpu::Buffer)
        ensures
            *r == self.indirect_buffer_spec(),
    {
        &self.indirect_buffer
    }

    pub fn get_material_bind_group(&self) -> (r: &wgpu::BindGroup)
        ensures
            *r == self.material_bind_group_spec(),
    {
        &self.mesh.material_bind_group
    }

    /// Sets the frame counter; nothing else changes.
    pub fn set_frame_count(&mut self, frame_count: u32)
        ensures
            final(self).frame_count_spec() == frame_count,
            final(self).same_resources(old(self)),
    {
        self.frame_count = frame_count;
    }

    /// The side the current frame reads from: A on even frames, B on odd.
    pub fn current_side(&self) -> (r: PingPongSide)
        ensures
            r == side_of_frame(self.frame_count_spec() as int),
    {
        PingPongSide::for_frame(self.frame_count)
    }

    /// The bind group of the current frame: A on even frames, B on odd.
    pub fn get_bind_group(&self) -> (r: &wgpu::BindGroup)
        ensures
            *r == self.bind_group_of_frame(self.frame_count_spec()),
    {
        select(self.current_side(), &self.bind_group_a, &self.bind_group_b)
    }

    /// The argument block that the indirect buffer is reset to before each
    /// dispatch: the whole particle mesh, zero instances, zero offsets. The
    /// compute pass then counts the instances it emits into it.
    pub fn reset_indirect_args(&self) -> (r: GpuIndirectArgs)
        ensures
            r == GpuIndirectArgs::zero_instances(self.index_count_spec()),
    {
        GpuIndirectArgs::new(self.mesh.index_count, 0)
    }
}

/// The frame after any frame binds the other bind group, also where the
/// 32-bit frame counter wraps around, and two frames later the first one is
/// bound again.
pub proof fn lemma_bind_groups_alternate(res: &NBodySimResources, frame_count: u32)
    ensures
        res.bind_group_of_frame(frame_count.wrapping_add(1)) == (match side_of_frame(
            frame_count as int,
        ) {
            PingPongSide::A => res.bind_group_b_spec(),
            PingPongSide::B => res.bind_group_a_spec(),
        }),
        res.bind_group_of_frame(frame_count.wrapping_add(2)) == res.bind_group_of_frame(
            frame_count,
        ),
{
}

} // verus!
