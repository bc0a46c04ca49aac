//! Host-side logic of a GPU-resident N-body particle simulation: the
//! indirect-draw argument record and its byte layout, the compute dispatch
//! size, the binding slots of the simulation's bind group, the ping-pong
//! choice of particle buffers, and the resource set that ties them together.

pub mod indirect_args;
pub mod dispatch;
pub mod ping_pong;
pub mod bindings;
pub mod resources;
