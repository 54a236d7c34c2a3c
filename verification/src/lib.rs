//! Geometry engine for threaded pipe adapters.
//!
//! Every length is an integer number of nanometres, and every angle is a
//! whole number of steps around the axis, so each vertex of the generated
//! mesh is an exact cylindrical coordinate that a host turns into Cartesian
//! positions.

pub mod dims;
pub mod profile;
pub mod mesh;
pub mod params;
pub mod tube;
pub mod thread;
pub mod adapter;
