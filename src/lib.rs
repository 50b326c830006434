pub mod buffers;
pub mod extract;
pub mod node;
pub mod pipeline;
pub mod types;
