pub mod color;
pub mod types;
