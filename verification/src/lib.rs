//! A small game-engine support library. Its heart is an asynchronous,
//! multi-target logging core: a registry of named log destinations,
//! decoupled from producers by a FIFO message queue that a background
//! drain loop services, with a pure token formatter. Around it stand the
//! engine's plain data types: window settings, screen geometry, vertex
//! layouts and the error taxonomy.

pub mod display;
pub mod geometry;
pub mod gl;
pub mod glx;
pub mod logging;
pub mod runtime;
