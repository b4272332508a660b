//! Geometry and render-state description of a coloured cube scene.
//!
//! The library holds everything about the scene that is exact: the cube mesh
//! (positions, colours and texture coordinates in half units), its index
//! buffer, the packing of vertices into an interleaved stream that matches a
//! pipeline layout, the pipeline and shader descriptions, and the draw call.
//! Uploading to the GPU and the floating-point camera matrices belong to the
//! host program.
pub mod mesh;
pub mod pipeline;
pub mod setup;
pub mod shader;
