//! Relaunching a process with proxy environment variables, and the saved
//! proxy profiles of the launcher.
pub mod text;
pub mod endpoint;
pub mod process;
pub mod profile;
pub mod launcher;
pub mod fonts;
