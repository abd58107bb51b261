//! The error codes that the protocol reserves, each with its fixed message.

use vstd::prelude::*;

verus! {

/// Invalid JSON was received by the server.
pub const PARSE_ERROR: (i32, &'static str) = (-32700, "Parse error");

/// The JSON sent is not a valid request object.
pub const INVALID_REQUEST: (i32, &'static str) = (-32600, "Invalid request");

/// The method does not exist or is not available.
pub const METHOD_NOT_FOUND: (i32, &'static str) = (-32601, "Method not found");

/// Invalid method parameters.
pub const INVALID_PARAMS: (i32, &'static str) = (-32602, "Invalid params");

/// Internal JSON-RPC error.
pub const INTERNAL_ERROR: (i32, &'static str) = (-32603, "Internal error");

/// The message of every server error that has none of its own.
pub const SERVER_ERROR: &'static str = "Server error";

/// The lowest code of the range kept for errors that a server defines.
pub const SERVER_ERROR_MIN: i32 = -32099;

/// The highest code of the range kept for errors that a server defines.
pub const SERVER_ERROR_MAX: i32 = -32000;

/// An error of unknown cause.
pub const UNKNOWN_ERROR: (i32, &'static str) = (-32001, "Unknown error");

/// The server does not take requests in batches.
pub const BATCH_NOT_SUPPORTED: (i32, &'static str) = (
    -32005,
    "Batched requests are not supported by this server",
);

/// The request is larger than the server accepts.
pub const OVERSIZED_REQUEST: (i32, &'static str) = (-32007, "Request is too big");

/// The response is larger than the server sends.
pub const OVERSIZED_RESPONSE: (i32, &'static str) = (-32008, "Response is too big");

/// The batch of requests is larger than the server accepts.
pub const OVERSIZED_BATCH_REQUEST: (i32, &'static str) = (
    -32010,
    "The batch request was too large",
);

/// The batch of responses is larger than the server sends.
pub const OVERSIZED_BATCH_RESPONSE: (i32, &'static str) = (
    -32011,
    "The batch response was too large",
);

/// The server cannot take the request now.
pub const SERVER_IS_BUSY: (i32, &'static str) = (-32009, "Server is busy, try again later");

} // verus!
