//! Control plane of a live shader preview: the typed commands that cross
//! between the render loop and the scripting loop, the render-state store,
//! the scripting session's coercion and reporting rules, the dynamic-uniform
//! scheduler, the per-connection REPL state machine and the hot-reload
//! coordinator.
//!
//! Numbers that the shader consumes are single-precision floats. The library
//! never computes with them: it carries each one as its IEEE-754 bit pattern
//! in a `u32`, so two numbers are equal exactly when their bits are.

pub mod command;
pub mod dynamic;
pub mod matrix;
pub mod mirror;
pub mod registry;
pub mod reload;
pub mod repl;
pub mod script;
pub mod session;
pub mod store;
pub mod text;
pub mod texture;
