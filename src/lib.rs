//! Procedural voxel terrain: chunk storage with a verified coordinate mapping,
//! height-field terrain filling, and visible-face meshing.
pub mod constants;
pub mod chunk;
pub mod mesh;
pub mod world;
