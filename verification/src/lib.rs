//! JSON-RPC 2.0 message types with verified encoding rules.

pub mod decimal;
pub mod json;
pub mod text;
pub mod payload;
pub mod wire;
pub mod id;
pub mod version;
pub mod error;
pub mod request;

pub use error::{ErrorCode, ErrorObject};
pub use id::Id;
pub use request::Request;
pub use version::Version;
pub use wire::{DecodeError, FormatError};
