//! The command-line client's syntax model and its pure helpers.

pub mod args;
pub mod connect;
pub mod locale;
pub mod status;

pub use args::{Cli, Command, GlobalArgs, OutputFormat};
pub use locale::catalog_for_locale;
pub use status::{status_color, status_key, StatusColor};
