//! Deterministic kernel for 3D particle clouds kept in flat coordinate
//! buffers, where consecutive triples of a buffer are the (x, y, z) of one
//! point.
//!
//! The library owns the integer side of the kernel: the seeded linear
//! congruential generator, the order in which its draws are consumed, and the
//! layout of points in a buffer. The per-point arithmetic on coordinates is
//! handed in by the caller as a closure, and each function states exactly
//! which arguments that closure receives and where its results land.
pub mod particles;
pub mod rng;
pub mod rotate;
pub mod sphere;

pub use particles::init_particles_with;
pub use rng::Lcg;
pub use rotate::step_rotate_y_with;
pub use sphere::fibonacci_sphere_with;
