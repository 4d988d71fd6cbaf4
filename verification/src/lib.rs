//! The frame lifecycle of an orbit viewer: the presentable surface's extent,
//! the mesh that is uploaded once, what happens to a frame after the surface
//! was asked for a texture, the order of the commands of one frame, the
//! overlay's shared state, and the life of the event loop.
//!
//! Everything here works on integers, booleans and enums. Coordinates and
//! colours are carried as IEEE-754 bit patterns and never computed with.

pub mod camera;
pub mod mesh;
pub mod pipeline;
pub mod renderer;
pub mod surface;
pub mod user_interface;
pub mod widget;
