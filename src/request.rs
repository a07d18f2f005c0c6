use vstd::prelude::*;
use crate::codec::{RecordKind, encode_key, is_prefixed_hex, physical_key};
use crate::error::ErrorKind;
use crate::router::{Arity, route, route_spec};

verus! {

/// The part of a JSON value that request dispatch reads: null, a string, an
/// array, or anything else.
#[derive(Debug)]
pub enum JsonValue {
    Null,
    Str(String),
    Array(Vec<JsonValue>),
    Other,
}

/// The hashes that `params` names for a method of the given arity: the string
/// `params[0]` for a single-hash method, the strings of the array `params[0]`
/// for a batch method; `None` where `params` is not shaped so.
pub open spec fn param_hashes(arity: Arity, params: JsonValue) -> Option<Seq<Seq<char>>> {
    match params {
        JsonValue::Array(items) => {
            if items@.len() == 0 {
                None
            } else {
                match arity {
                    Arity::Single => match items@[0] {
                        JsonValue::Str(s) => Some(seq![s@]),
                        _ => None,
                    },
                    Arity::Batch => match items@[0] {
                        JsonValue::Array(hs) => {
                            if forall|i: int| 0 <= i < hs@.len() ==> #[trigger] hs@[i] is Str {
                                Some(Seq::new(hs@.len(), |i: int| hs@[i]->Str_0@))
                            } else {
                                None
                            }
                        },
                        _ => None,
                    },
                }
            }
        },
        _ => None,
    }
}

/// The outcome of validating and routing a request: the record kind and the
/// requested hashes, or the first failure in the order null parameters,
/// unknown method, badly shaped parameters, malformed hash.
pub open spec fn plan_spec(method: Seq<char>, params: JsonValue) -> Result<
    (RecordKind, Seq<Seq<char>>),
    ErrorKind,
> {
    if params is Null {
        Err(ErrorKind::MissingParams)
    } else {
        match route_spec(method) {
            None => Err(ErrorKind::UnknownMethod),
            Some((kind, arity)) => match param_hashes(arity, params) {
                None => Err(ErrorKind::InvalidParams),
                Some(hs) => {
                    if forall|i: int| 0 <= i < hs.len() ==> is_prefixed_hex(#[trigger] hs[i]) {
                        Ok((kind, hs))
                    } else {
                        Err(ErrorKind::MalformedHash)
                    }
                },
            },
        }
    }
}

/// One batched lookup: the hashes as the client wrote them and, position by
/// position, the physical keys to fetch.
pub struct Lookup {
    pub kind: RecordKind,
    pub hashes: Vec<String>,
    pub keys: Vec<Vec<u8>>,
}

impl Lookup {
    pub open spec fn hash_views(&self) -> Seq<Seq<char>> {
        self.hashes@.map_values(|s: String| s@)
    }

    pub open spec fn key_views(&self) -> Seq<Seq<u8>> {
        self.keys@.map_values(|k: Vec<u8>| k@)
    }

    /// Each key is the physical key of the hash at the same position.
    pub open spec fn wf(&self) -> bool {
        &&& self.hashes@.len() == self.keys@.len()
        &&& forall|i: int|
            0 <= i < self.keys@.len() ==> #[trigger] self.keys@[i]@ == physical_key(
                self.kind,
                self.hashes@[i]@,
            )
    }
}

/// Collects the strings of a JSON array, failing on the first element that is
/// not a string.
fn strings_of(items: &Vec<JsonValue>) -> (r: Option<Vec<String>>)
    ensures
        (forall|i: int| 0 <= i < items@.len() ==> #[trigger] items@[i] is Str) ==> r is Some
            && r->Some_0@.map_values(|s: String| s@) == Seq::new(
            items@.len(),
            |i: int| items@[i]->Str_0@,
        ),
        !(forall|i: int| 0 <= i < items@.len() ==> #[trigger] items@[i] is Str) ==> r is None,
{
    let mut out: Vec<String> = Vec::new();
    let mut i: usize = 0;
    while i < items.len()
        invariant
            i <= items@.len(),
            out@.len() == i,
            forall|j: int| 0 <= j < i ==> #[trigger] items@[j] is Str,
            forall|j: int| 0 <= j < i ==> #[trigger] out@[j]@ == items@[j]->Str_0@,
        decreases items.len() - i,
    {
        match &items[i] {
            JsonValue::Str(s) => {
                out.push(s.clone());
            },
            _ => {
                return None;
            },
        }
        i = i + 1;
    }
    assert(out@.map_values(|s: String| s@) =~= Seq::new(items@.len(), |i: int| items@[i]->Str_0@));
    Some(out)
}

/// Reads the requested hashes out of `params` for a method of the given arity.
fn hashes_of(arity: Arity, params: &JsonValue) -> (r: Option<Vec<String>>)
    ensures
        param_hashes(arity, *params) is None ==> r is None,
        param_hashes(arity, *params) is Some ==> r is Some && r->Some_0@.map_values(
            |s: String| s@,
        ) == param_hashes(arity, *params)->Some_0,
{
    match params {
        JsonValue::Array(items) => {
            if items.len() == 0 {
                return None;
            }
            match arity {
                Arity::Single => match &items[0] {
                    JsonValue::Str(s) => {
                        let v = vec![s.clone()];
                        assert(v@.map_values(|s: String| s@) =~= seq![s@]);
                        Some(v)
                    },
                    _ => None,
                },
                Arity::Batch => match &items[0] {
                    JsonValue::Array(hs) => strings_of(hs),
                    _ => None,
                },
            }
        },
        _ => None,
    }
}

/// Validates a request and turns it into one batched lookup.
///
/// The check for null parameters comes first, ahead of routing, so a request
/// without parameters reports `MissingParams` whatever its method name.
pub fn plan_request(method: &str, params: &JsonValue) -> (r: Result<Lookup, ErrorKind>)
    ensures
        plan_spec(method@, *params) is Err ==> r == Err::<Lookup, ErrorKind>(
            plan_spec(method@, *params)->Err_0,
        ),
        plan_spec(method@, *params) is Ok ==> r is Ok && r->Ok_0.wf() && r->Ok_0.kind == plan_spec(
            method@,
            *params,
        )->Ok_0.0 && r->Ok_0.hash_views() == plan_spec(method@, *params)->Ok_0.1,
{
    if let JsonValue::Null = params {
        return Err(ErrorKind::MissingParams);
    }
    let (kind, arity) = match route(method) {
        Some(ka) => ka,
        None => {
            return Err(ErrorKind::UnknownMethod);
        },
    };
    let hashes = match hashes_of(arity, params) {
        Some(hs) => hs,
        None => {
            return Err(ErrorKind::InvalidParams);
        },
    };
    let ghost hs = hashes@.map_values(|s: String| s@);
    let mut keys: Vec<Vec<u8>> = Vec::new();
    let mut i: usize = 0;
    while i < hashes.len()
        invariant
            hs == hashes@.map_values(|s: String| s@),
            !(*params is Null),
            route_spec(method@) == Some((kind, arity)),
            param_hashes(arity, *params) == Some(hs),
            i <= hashes@.len(),
            keys@.len() == i,
            forall|j: int| 0 <= j < i ==> is_prefixed_hex(#[trigger] hs[j]),
            forall|j: int|
                0 <= j < i ==> #[trigger] keys@[j]@ == physical_key(kind, hashes@[j]@),
        decreases hashes.len() - i,
    {
        match encode_key(kind, hashes[i].as_str()) {
            Ok(k) => {
                keys.push(k);
            },
            Err(e) => {
                assert(!is_prefixed_hex(hs[i as int]));
                return Err(e);
            },
        }
        i = i + 1;
    }
    Ok(Lookup { kind, hashes, keys })
}

} // verus!
