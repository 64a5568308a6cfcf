//! Simulated typing: a text-injection command that submits a string to the
//! operating system as synthetic keystrokes, through a platform
//! input-injection handle acquired with default settings.
//!
//! The platform connection itself is an external collaborator reached through
//! a narrow capability interface (acquire a handle, inject text, release the
//! handle). The library tracks, as a ghost model, the stream of characters
//! handed to that connection, and its contracts pin down that a command
//! submits exactly the characters of its argument, in order.

mod backend;
pub mod inject;

pub use inject::InjectError;
pub use inject::Injector;
pub use inject::type_text;
