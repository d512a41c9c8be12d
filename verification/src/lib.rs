//! Decision logic of a small windowed renderer that draws one triangle.
//!
//! The crate holds everything the program decides: how window events act on
//! the close flag, how build diagnostics are worded, what the vertex data
//! looks like, and in which order the platform is asked to do its work.
//! Talking to the window system and the graphics driver is left to the
//! caller, who asks the [`driver::Driver`] for the pending command, performs
//! it, and hands back the reply, until the command is to leave or to abort.

pub mod config;
pub mod driver;
pub mod event;
pub mod mesh;
pub mod run;
pub mod shader;
pub mod text;

pub use config::Color;
pub use event::glfw_handle_event;
