//! Control core of a per-interface lease daemon: command parsing, the
//! worker registry, the status and reply codec and the socket framing.

pub mod error;
pub mod json;
pub mod text;
pub mod status;
pub mod reply;
pub mod command;
pub mod worker;
pub mod registry;
pub mod server;
pub mod framing;

pub use error::ErrorKind;
pub use error::MozimError;
pub use reply::MozimResult;
pub use status::DhcpState;
pub use status::DhcpStatus;
