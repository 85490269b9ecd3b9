//! Frame logic of a compute plugin for a render-graph engine: the integer
//! buffer it uploads, the descriptors of its pipeline, the per-frame
//! bind-group preparation and the decision of the dispatch node.

pub mod bind_group;
pub mod laws;
pub mod node;
pub mod numbers;
pub mod pipeline;
pub mod plugin;
