//! Bundles: a mesh coupled with the material it is drawn with.

pub mod mesh;
