//! File transfer over SFTP.

pub mod browser;
pub mod browser_laws;
pub mod command_laws;
pub mod laws;
pub mod listing;
pub mod model;
pub mod queue_laws;
pub mod staging_laws;
pub mod tree_laws;
pub mod worker;
