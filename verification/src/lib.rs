pub mod animations;
pub mod color;
pub mod hex;
pub mod tasks;
pub mod utils;
