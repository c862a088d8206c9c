pub mod shader;
pub mod program;
pub mod texture;
