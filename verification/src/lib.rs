//! A recursive Monte Carlo ray tracer over saturating fixed-point arithmetic:
//! sphere scenes, diffuse / reflective / refractive materials, a depth-bounded
//! integrator, and a camera that renders a row-major pixel buffer.
pub mod fixed;
pub mod vec3;
pub mod ray;
pub mod interval;
pub mod hittable;
pub mod material;
pub mod rng;
pub mod sphere;
pub mod hittable_list;
pub mod color;
pub mod camera;
