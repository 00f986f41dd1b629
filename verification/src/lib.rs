//! A procedurally generated four-pointed star with a beveled canyon
//! profile: shape parameters, the 48-vertex triangle mesh with flat
//! per-face normals, the GPU handle lifecycle that owns the uploaded
//! buffer and shader program, and an input-driven directional light.
//!
//! All geometry is exact fixed-point arithmetic in milli-units (1000
//! per world unit), so the mesh, the normals' unit length, the
//! quadrant mirror symmetry and the lifecycle's no-leak and
//! close-idempotence properties are machine-checked. The host around
//! the library converts the flat vertex stream to floats and drives
//! the graphics API.

pub mod geometry;
pub mod mesh;
pub mod normal;
pub mod sqrt;
pub mod star;
