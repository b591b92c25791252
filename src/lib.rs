pub mod text;
pub mod console;
pub mod render;
pub mod frame;
pub mod laws;
