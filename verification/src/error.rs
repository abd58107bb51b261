//! Error codes and error objects.

pub mod code;
pub mod constants;
pub mod object;

pub use code::ErrorCode;
pub use object::ErrorObject;
