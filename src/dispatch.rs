//! Sizing of the simulation's compute dispatch.

use vstd::prelude::*;

verus! {

/// Invocations per workgroup of the simulation's compute entry point.
pub const WORKGROUP_SIZE: u32 = 64;

/// `n / d` rounded up.
pub open spec fn ceil_div(n: int, d: int) -> int {
    (n + d - 1) / d
}

/// Number of workgroups that gives every particle one invocation:
/// `ceil(particle_count / 64)`.
pub fn workgroup_count(particle_count: u32) -> (r: u32)
    ensures
        r == ceil_div(particle_count as int, WORKGROUP_SIZE as int),
{
    let whole = particle_count / WORKGROUP_SIZE;
    if particle_count % WORKGROUP_SIZE == 0 {
        whole
    } else {
        whole + 1
    }
}

/// The workgroups of `workgroup_count(n)` hold at least one invocation per
/// particle, and fewer than one whole workgroup more than that.
pub proof fn lemma_workgroups_cover_particles(particle_count: u32)
    ensures
        ceil_div(particle_count as int, WORKGROUP_SIZE as int) * (WORKGROUP_SIZE as int)
            >= particle_count,
        ceil_div(particle_count as int, WORKGROUP_SIZE as int) * (WORKGROUP_SIZE as int)
            < particle_count + WORKGROUP_SIZE,
        particle_count == 0 <==> ceil_div(particle_count as int, WORKGROUP_SIZE as int) == 0,
{
}

} // verus!
