//! SSHub: the decision core of a terminal UI for SSH hosts.

pub mod app;
pub mod cli;
pub mod hosts;
pub mod keybind_laws;
pub mod keybinds;
pub mod launch;
pub mod path_laws;
pub mod paths;
pub mod session;
pub mod sftp;
pub mod text;
pub mod text_input;
pub mod text_laws;

pub use launch::{run, run_app};
