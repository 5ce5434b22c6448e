//! Descriptions of bind-group layouts, pipelines and render passes, built from
//! the few parameters that vary.

pub mod bind;
pub mod pass;
pub mod pipeline;
