use vstd::prelude::*;
use crate::error::{ErrorKind, error_code, error_message};
use crate::request::{JsonValue, plan_spec};
use crate::router::route_spec;

verus! {

/// The error object of a JSON-RPC response; code 0 means success.
pub struct RpcError {
    pub message: String,
    pub code: i32,
    pub data: String,
}

/// A JSON-RPC response: the request's id echoed, the found entries keyed by
/// hash on success, and the error object.
pub struct RpcResponse {
    pub id: u64,
    pub result: Option<Vec<(String, String)>>,
    pub error: RpcError,
}

/// Builds the response to the request with the given id from the outcome of
/// its lookup. Failures travel in the error object, never as a protocol fault.
pub fn respond(id: u64, outcome: Result<Vec<(String, String)>, ErrorKind>) -> (r: RpcResponse)
    ensures
        r.id == id,
        r.error.data@.len() == 0,
        match outcome {
            Ok(entries) => r.error.code == 0 && r.error.message@.len() == 0 && r.result == Some(
                entries,
            ),
            Err(e) => r.error.code == error_code(e) && r.error.code != 0 && r.error.message@ == error_message(e) && r.error.message@.len()
                > 0 && r.result is None,
        },
{
    match outcome {
        Ok(entries) => RpcResponse {
            id,
            result: Some(entries),
            error: RpcError { message: String::new(), code: 0, data: String::new() },
        },
        Err(e) => RpcResponse {
            id,
            result: None,
            error: RpcError { message: e.message(), code: e.code(), data: String::new() },
        },
    }
}

/// Null parameters are reported before the method name is looked at: any
/// method, known or not, gets `MissingParams`, code -1002.
pub proof fn lemma_null_params_first(method: Seq<char>)
    ensures
        plan_spec(method, JsonValue::Null) == Err::<(crate::codec::RecordKind, Seq<Seq<char>>), ErrorKind>(
            ErrorKind::MissingParams,
        ),
        error_code(ErrorKind::MissingParams) == -1002,
{
}

/// A method name outside the four lookup methods, with parameters present,
/// gets `UnknownMethod`, code -1001.
pub proof fn lemma_unknown_method(method: Seq<char>, params: JsonValue)
    requires
        !(params is Null),
        route_spec(method) is None,
    ensures
        plan_spec(method, params) == Err::<(crate::codec::RecordKind, Seq<Seq<char>>), ErrorKind>(
            ErrorKind::UnknownMethod,
        ),
        error_code(ErrorKind::UnknownMethod) == -1001,
{
}

} // verus!
