//! The verified core of a Monte Carlo path tracer.

pub mod camera;
pub mod hittable;
pub mod material;
pub mod ray;
pub mod render;
pub mod scalar;
pub mod sphere;
pub mod vec3;
