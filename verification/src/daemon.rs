//! The local daemon: its transport rules and its engine status service.

pub mod errors;
pub mod helper;
pub mod status;
pub mod transport;

pub use errors::DaemonError;
pub use helper::HelperError;
pub use status::to_proto_status;
pub use transport::{TransportError, UnixEndpoint};
