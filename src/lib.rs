//! Grid layout, field storage, boundary conditions and time-stepping control
//! for a finite-volume solver of the 2D compressible Euler equations on a
//! structured curvilinear grid.
//!
//! Every item here is independent of the scalar type: fields are generic over
//! their element, so the same verified layout and boundary logic serves any
//! numeric representation chosen by the caller.
pub mod grid;
pub mod field;
pub mod scheme;
pub mod basic_var;
pub mod bc;
pub mod marching;
pub mod settings;
