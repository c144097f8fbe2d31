pub mod types;
pub mod window;
