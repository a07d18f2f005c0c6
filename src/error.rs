use vstd::prelude::*;

verus! {

/// Every way in which a lookup request can fail. Each one is reported to the
/// client as a JSON-RPC error object with a non-zero code.
#[derive(Debug, Clone, Copy, PartialEq, Eq, Structural)]
pub enum ErrorKind {
    /// The request carried no `params` (null or absent).
    MissingParams,
    /// The method name is not one of the four lookup methods.
    UnknownMethod,
    /// `params` is present but not shaped as the method needs.
    InvalidParams,
    /// A requested hash is not `0x`-prefixed hex with an even number of digits.
    MalformedHash,
    /// The storage backend could not be reached or failed while reading.
    BackendUnavailable,
    /// The storage backend did not answer within the configured time.
    BackendTimeout,
    /// The backend returned a key that does not carry the expected table prefix.
    MalformedKey,
}

pub open spec fn error_code(e: ErrorKind) -> int {
    match e {
        ErrorKind::UnknownMethod => -1001,
        ErrorKind::MissingParams => -1002,
        ErrorKind::InvalidParams => -1003,
        ErrorKind::MalformedHash => -1004,
        ErrorKind::BackendUnavailable => -1005,
        ErrorKind::BackendTimeout => -1006,
        ErrorKind::MalformedKey => -1007,
    }
}

pub open spec fn error_message(e: ErrorKind) -> Seq<char> {
    match e {
        ErrorKind::UnknownMethod => "method not found"@,
        ErrorKind::MissingParams => "parameters is null"@,
        ErrorKind::InvalidParams => "invalid parameters"@,
        ErrorKind::MalformedHash => "malformed hash"@,
        ErrorKind::BackendUnavailable => "storage backend unavailable"@,
        ErrorKind::BackendTimeout => "storage backend timed out"@,
        ErrorKind::MalformedKey => "malformed key in storage"@,
    }
}

impl ErrorKind {
    /// The JSON-RPC error code of this failure; never zero, which means success.
    pub fn code(&self) -> (r: i32)
        ensures
            r == error_code(*self),
            r != 0,
    {
        match self {
            ErrorKind::UnknownMethod => -1001,
            ErrorKind::MissingParams => -1002,
            ErrorKind::InvalidParams => -1003,
            ErrorKind::MalformedHash => -1004,
            ErrorKind::BackendUnavailable => -1005,
            ErrorKind::BackendTimeout => -1006,
            ErrorKind::MalformedKey => -1007,
        }
    }

    /// The human-readable message sent with the error code.
    pub fn message(&self) -> (r: String)
        ensures
            r@ == error_message(*self),
            r@.len() > 0,
    {
        proof {
            reveal_strlit("method not found");
            reveal_strlit("parameters is null");
            reveal_strlit("invalid parameters");
            reveal_strlit("malformed hash");
            reveal_strlit("storage backend unavailable");
            reveal_strlit("storage backend timed out");
            reveal_strlit("malformed key in storage");
        }
        let s = match self {
            ErrorKind::UnknownMethod => "method not found",
            ErrorKind::MissingParams => "parameters is null",
            ErrorKind::InvalidParams => "invalid parameters",
            ErrorKind::MalformedHash => "malformed hash",
            ErrorKind::BackendUnavailable => "storage backend unavailable",
            ErrorKind::BackendTimeout => "storage backend timed out",
            ErrorKind::MalformedKey => "malformed key in storage",
        };
        s.to_owned()
    }
}

} // verus!
