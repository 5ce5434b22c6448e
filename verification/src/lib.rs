//! A real-time rendering scaffold: scene objects are queued on the CPU, made
//! resident exactly once, instanced, and bound into a render pass in a fixed
//! order. Resident objects are plain values that say what the graphics device
//! is to hold; a render pass is the list of commands recorded into it.

pub mod chunk;
pub mod render;
pub mod scene;
