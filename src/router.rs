use vstd::prelude::*;
use crate::codec::RecordKind;

verus! {

/// Whether a method takes one hash or an array of hashes.
#[derive(Debug, Clone, Copy, PartialEq, Eq, Structural)]
pub enum Arity {
    Single,
    Batch,
}

/// The record kind and arity served under each method name; `None` for any
/// other name.
pub open spec fn route_spec(m: Seq<char>) -> Option<(RecordKind, Arity)> {
    if m == "getTransactionByHash"@ {
        Some((RecordKind::Transaction, Arity::Single))
    } else if m == "getTransactions"@ {
        Some((RecordKind::Transaction, Arity::Batch))
    } else if m == "getTransactionReceipt"@ {
        Some((RecordKind::Receipt, Arity::Single))
    } else if m == "getTransactionReceipts"@ {
        Some((RecordKind::Receipt, Arity::Batch))
    } else {
        None
    }
}

/// Resolves a JSON-RPC method name to the record kind it reads and the shape
/// of its parameters.
pub fn route(method: &str) -> (r: Option<(RecordKind, Arity)>)
    ensures
        r == route_spec(method@),
{
    let m = method.to_owned();
    if m == "getTransactionByHash".to_owned() {
        Some((RecordKind::Transaction, Arity::Single))
    } else if m == "getTransactions".to_owned() {
        Some((RecordKind::Transaction, Arity::Batch))
    } else if m == "getTransactionReceipt".to_owned() {
        Some((RecordKind::Receipt, Arity::Single))
    } else if m == "getTransactionReceipts".to_owned() {
        Some((RecordKind::Receipt, Arity::Batch))
    } else {
        None
    }
}

} // verus!
