//! Artifact schema, encoding chain and verification decisions for the
//! "supernova_v1" proof-artifact family over the "pasta" curve pair.

pub mod codec;
pub mod schema;
pub mod step;
pub mod pipeline;
