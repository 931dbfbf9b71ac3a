//! Verified core of a small real-time engine's GPU resource and
//! frame-submission layer.

pub mod backend;
pub mod chain;
pub mod cmd;
pub mod droppable;
pub mod engine;
pub mod frames;
pub mod images;
pub mod input;
pub mod loader;
pub mod pipeline;
pub mod queues;
pub mod renderer;
pub mod resources;
pub mod shader;
pub mod shared_str;
pub mod surface;
pub mod sync;
pub mod time;
pub mod types;
pub mod util;
pub mod window;
