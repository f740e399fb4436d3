//! A verified geometric core for a spinning wireframe-cube animation:
//! fixed-point Euler rotation, perspective projection to normalized device
//! coordinates, letterboxed mapping to pixel coordinates, and assembly of the
//! twelve cube edges as drawable segments.

pub mod fixed;
pub mod mapper;
pub mod pipeline;
pub mod project;
pub mod rotate;
pub mod wireframe;
