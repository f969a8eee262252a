//! The per-user configuration record of the `so` command-line tool: where it
//! lives, what it holds by default, and the load-or-create and update
//! workflows that read and write it.
//!
//! The file system work itself (creating the directory, reading the file,
//! writing it) is done by the caller. The library decides, from the outcome
//! of each such step, what happens next.

pub mod config;
pub mod error;
pub mod laws;
pub mod location;
pub mod session;

pub use config::{Config, set_api_key};
pub use error::{Error, PermissionType};
pub use location::{config_dir, config_file_in, config_file_name, project_dir, project_identity};
pub use session::{Action, Event, Request, Session};
