//! Error codes.

use crate::error::constants::{
    INTERNAL_ERROR, INVALID_PARAMS, INVALID_REQUEST, METHOD_NOT_FOUND, PARSE_ERROR, SERVER_ERROR,
    SERVER_ERROR_MAX, SERVER_ERROR_MIN,
};
use vstd::prelude::*;

verus! {

/// The classification of an error: one of the five that the protocol
/// defines, or a number of the server's own.
#[derive(Debug, Clone, Copy, PartialEq, Eq, Structural, PartialOrd, Ord, Hash)]
pub enum ErrorCode {
    /// Invalid JSON was received by the server.
    ParseError,
    /// The JSON sent is not a valid request object.
    InvalidRequest,
    /// The method does not exist or is not available.
    MethodNotFound,
    /// Invalid method parameters.
    InvalidParams,
    /// Internal JSON-RPC error.
    InternalError,
    /// Any other error, by its number.
    ServerError(i32),
}

/// Whether `code` lies in the range kept for errors that a server defines.
pub open spec fn in_server_range(code: i32) -> bool {
    SERVER_ERROR_MIN <= code <= SERVER_ERROR_MAX
}

impl ErrorCode {
    /// The number that the code is written as.
    pub open spec fn code_spec(self) -> i32 {
        match self {
            ErrorCode::ParseError => PARSE_ERROR.0,
            ErrorCode::InvalidRequest => INVALID_REQUEST.0,
            ErrorCode::MethodNotFound => METHOD_NOT_FOUND.0,
            ErrorCode::InvalidParams => INVALID_PARAMS.0,
            ErrorCode::InternalError => INTERNAL_ERROR.0,
            ErrorCode::ServerError(code) => code,
        }
    }

    /// The code that a number is read as: the protocol's own code where the
    /// number is that of one, a server error otherwise.
    pub open spec fn from_code_spec(code: i32) -> ErrorCode {
        if code == PARSE_ERROR.0 {
            ErrorCode::ParseError
        } else if code == INVALID_REQUEST.0 {
            ErrorCode::InvalidRequest
        } else if code == METHOD_NOT_FOUND.0 {
            ErrorCode::MethodNotFound
        } else if code == INVALID_PARAMS.0 {
            ErrorCode::InvalidParams
        } else if code == INTERNAL_ERROR.0 {
            ErrorCode::InternalError
        } else {
            ErrorCode::ServerError(code)
        }
    }

    /// The default message of the code.
    pub open spec fn msg_spec(self) -> &'static str {
        match self {
            ErrorCode::ParseError => PARSE_ERROR.1,
            ErrorCode::InvalidRequest => INVALID_REQUEST.1,
            ErrorCode::MethodNotFound => METHOD_NOT_FOUND.1,
            ErrorCode::InvalidParams => INVALID_PARAMS.1,
            ErrorCode::InternalError => INTERNAL_ERROR.1,
            ErrorCode::ServerError(_) => SERVER_ERROR,
        }
    }

    /// Whether the code is the one that its own number is read as: every
    /// code is, but a server error that carries the number of one of the
    /// protocol's own codes.
    pub open spec fn is_canonical(self) -> bool {
        ErrorCode::from_code_spec(self.code_spec()) == self
    }

    /// The number that the code is written as.
    pub fn code(&self) -> (r: i32)
        ensures
            r == self.code_spec(),
    {
        match self {
            ErrorCode::ParseError => PARSE_ERROR.0,
            ErrorCode::InvalidRequest => INVALID_REQUEST.0,
            ErrorCode::MethodNotFound => METHOD_NOT_FOUND.0,
            ErrorCode::InvalidParams => INVALID_PARAMS.0,
            ErrorCode::InternalError => INTERNAL_ERROR.0,
            ErrorCode::ServerError(code) => *code,
        }
    }

    /// The code that a number is read as.
    pub fn from_code(code: i32) -> (r: ErrorCode)
        ensures
            r == ErrorCode::from_code_spec(code),
    {
        if code == PARSE_ERROR.0 {
            ErrorCode::ParseError
        } else if code == INVALID_REQUEST.0 {
            ErrorCode::InvalidRequest
        } else if code == METHOD_NOT_FOUND.0 {
            ErrorCode::MethodNotFound
        } else if code == INVALID_PARAMS.0 {
            ErrorCode::InvalidParams
        } else if code == INTERNAL_ERROR.0 {
            ErrorCode::InternalError
        } else {
            ErrorCode::ServerError(code)
        }
    }

    /// The default message of the code.
    pub fn msg(&self) -> (r: &'static str)
        ensures
            r == self.msg_spec(),
    {
        match self {
            ErrorCode::ParseError => PARSE_ERROR.1,
            ErrorCode::InvalidRequest => INVALID_REQUEST.1,
            ErrorCode::MethodNotFound => METHOD_NOT_FOUND.1,
            ErrorCode::InvalidParams => INVALID_PARAMS.1,
            ErrorCode::InternalError => INTERNAL_ERROR.1,
            ErrorCode::ServerError(_) => SERVER_ERROR,
        }
    }
}

/// A number is written back as it was read: reading a number as a code and
/// writing that code gives the number.
pub proof fn lemma_code_of_from_code(code: i32)
    ensures
        ErrorCode::from_code_spec(code).code_spec() == code,
        ErrorCode::from_code_spec(code).is_canonical(),
{
}

/// None of the protocol's own codes lies in the range kept for servers.
pub proof fn lemma_protocol_codes_outside_server_range(code: ErrorCode)
    requires
        !(code is ServerError),
    ensures
        !in_server_range(code.code_spec()),
        code.is_canonical(),
{
}

} // verus!
