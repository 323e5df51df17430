//! Code generation: the flat context that project templates are rendered from.

pub mod context;
pub mod environment;
pub mod progress;
