use std::collections::HashMap;

use archive_reader::codec::{decode_key, encode_key, RecordKind};
use archive_reader::{
    collect_results, plan_request, respond, route, Arity, BackendReply, ErrorKind, JsonValue,
    RpcResponse,
};

const TX_PREFIX: &[u8] = b"s_hash_2_tx:";
const RECEIPT_PREFIX: &[u8] = b"s_hash_2_receipt:";

fn s(text: &str) -> JsonValue {
    JsonValue::Str(text.to_string())
}

fn single(hash: &str) -> JsonValue {
    JsonValue::Array(vec![s(hash)])
}

fn batch(hashes: &[&str]) -> JsonValue {
    JsonValue::Array(vec![JsonValue::Array(hashes.iter().map(|h| s(h)).collect())])
}

fn key(prefix: &[u8], bytes: &[u8]) -> Vec<u8> {
    let mut k = prefix.to_vec();
    k.extend_from_slice(bytes);
    k
}

fn seeded_store() -> HashMap<Vec<u8>, String> {
    let mut store = HashMap::new();
    store.insert(key(TX_PREFIX, &[0x01]), "tx1".to_string());
    store.insert(key(RECEIPT_PREFIX, &[0x01]), "rc1".to_string());
    store
}

fn embedded_reply(store: &HashMap<Vec<u8>, String>, keys: &[Vec<u8>]) -> BackendReply {
    BackendReply::Embedded(keys.iter().map(|k| store.get(k).cloned()).collect())
}

fn distributed_reply(store: &HashMap<Vec<u8>, String>, keys: &[Vec<u8>]) -> BackendReply {
    BackendReply::Distributed(
        keys.iter()
            .filter_map(|k| store.get(k).map(|v| (k.clone(), v.clone())))
            .collect(),
    )
}

fn serve(
    store: &HashMap<Vec<u8>, String>,
    id: u64,
    method: &str,
    params: JsonValue,
    embedded: bool,
) -> RpcResponse {
    match plan_request(method, &params) {
        Err(e) => respond(id, Err(e)),
        Ok(lookup) => {
            let reply = if embedded {
                embedded_reply(store, &lookup.keys)
            } else {
                distributed_reply(store, &lookup.keys)
            };
            respond(id, collect_results(&lookup, reply))
        }
    }
}

fn entries(r: &RpcResponse) -> Vec<(String, String)> {
    let mut e = r.result.clone().expect("a result");
    e.sort();
    e
}

fn pair(h: &str, v: &str) -> (String, String) {
    (h.to_string(), v.to_string())
}

#[test]
fn encode_key_transaction() {
    assert_eq!(encode_key(RecordKind::Transaction, "0x01"), Ok(key(TX_PREFIX, &[0x01])));
}

#[test]
fn encode_key_receipt_several_bytes() {
    assert_eq!(
        encode_key(RecordKind::Receipt, "0x00ab10"),
        Ok(key(RECEIPT_PREFIX, &[0x00, 0xab, 0x10]))
    );
}

#[test]
fn encode_key_accepts_uppercase_digits() {
    assert_eq!(encode_key(RecordKind::Transaction, "0xAB"), Ok(key(TX_PREFIX, &[0xab])));
}

#[test]
fn encode_key_empty_hash() {
    assert_eq!(encode_key(RecordKind::Transaction, "0x"), Ok(TX_PREFIX.to_vec()));
}

#[test]
fn encode_key_rejects_malformed() {
    assert_eq!(encode_key(RecordKind::Transaction, "zz"), Err(ErrorKind::MalformedHash));
    assert_eq!(encode_key(RecordKind::Transaction, "0x1"), Err(ErrorKind::MalformedHash));
    assert_eq!(encode_key(RecordKind::Transaction, "0xzz"), Err(ErrorKind::MalformedHash));
    assert_eq!(encode_key(RecordKind::Receipt, "01"), Err(ErrorKind::MalformedHash));
    assert_eq!(encode_key(RecordKind::Receipt, ""), Err(ErrorKind::MalformedHash));
}

#[test]
fn decode_key_strips_prefix_and_encodes_lowercase() {
    let k = key(TX_PREFIX, &[0xde, 0xad, 0x01]);
    assert_eq!(decode_key(RecordKind::Transaction, &k), Ok("0xdead01".to_string()));
}

#[test]
fn decode_key_rejects_other_prefix() {
    let k = key(TX_PREFIX, &[0x01]);
    assert_eq!(decode_key(RecordKind::Receipt, &k), Err(ErrorKind::MalformedKey));
    assert_eq!(decode_key(RecordKind::Transaction, &b"s_hash".to_vec()), Err(ErrorKind::MalformedKey));
}

#[test]
fn key_round_trip() {
    for h in ["0x01", "0x", "0x00ff7a", "0xabcdef0123456789"] {
        for kind in [RecordKind::Transaction, RecordKind::Receipt] {
            let k = encode_key(kind, h).unwrap();
            assert_eq!(decode_key(kind, &k), Ok(h.to_string()));
        }
    }
}

#[test]
fn uppercase_hash_comes_back_lowercase() {
    let k = encode_key(RecordKind::Receipt, "0xAB").unwrap();
    assert_eq!(decode_key(RecordKind::Receipt, &k), Ok("0xab".to_string()));
}

#[test]
fn kinds_never_collide() {
    for h1 in ["0x", "0x01", "0x7265636569"] {
        for h2 in ["0x", "0x01", "0x7478"] {
            let t = encode_key(RecordKind::Transaction, h1).unwrap();
            let r = encode_key(RecordKind::Receipt, h2).unwrap();
            assert_ne!(t, r);
            assert_eq!(decode_key(RecordKind::Receipt, &t), Err(ErrorKind::MalformedKey));
            assert_eq!(decode_key(RecordKind::Transaction, &r), Err(ErrorKind::MalformedKey));
        }
    }
}

#[test]
fn routes_the_four_methods() {
    assert_eq!(route("getTransactionByHash"), Some((RecordKind::Transaction, Arity::Single)));
    assert_eq!(route("getTransactions"), Some((RecordKind::Transaction, Arity::Batch)));
    assert_eq!(route("getTransactionReceipt"), Some((RecordKind::Receipt, Arity::Single)));
    assert_eq!(route("getTransactionReceipts"), Some((RecordKind::Receipt, Arity::Batch)));
    assert_eq!(route("getBlock"), None);
    assert_eq!(route("gettransactions"), None);
    assert_eq!(route(""), None);
}

#[test]
fn null_params_reported_before_method() {
    let store = seeded_store();
    for m in ["getTransactionByHash", "getTransactions", "noSuchMethod", ""] {
        let r = serve(&store, 7, m, JsonValue::Null, true);
        assert_eq!(r.id, 7);
        assert_eq!(r.error.code, -1002);
        assert_eq!(r.error.message, "parameters is null");
        assert!(r.result.is_none());
    }
}

#[test]
fn unknown_method_with_params() {
    let store = seeded_store();
    let r = serve(&store, 3, "getBlock", single("0x01"), true);
    assert_eq!(r.id, 3);
    assert_eq!(r.error.code, -1001);
    assert_eq!(r.error.message, "method not found");
    let r = serve(&store, 4, "getBlock", JsonValue::Other, true);
    assert_eq!(r.error.code, -1001);
}

#[test]
fn badly_shaped_params() {
    let store = seeded_store();
    for (m, p) in [
        ("getTransactionByHash", JsonValue::Other),
        ("getTransactionByHash", JsonValue::Array(vec![])),
        ("getTransactionByHash", batch(&["0x01"])),
        ("getTransactions", single("0x01")),
        ("getTransactions", JsonValue::Array(vec![JsonValue::Array(vec![s("0x01"), JsonValue::Other])])),
        ("getTransactionReceipt", s("0x01")),
    ] {
        let r = serve(&store, 1, m, p, true);
        assert_eq!(r.error.code, ErrorKind::InvalidParams.code());
        assert!(r.result.is_none());
    }
}

#[test]
fn malformed_hash_gives_error_code() {
    let store = seeded_store();
    let r = serve(&store, 9, "getTransactionByHash", single("zz"), true);
    assert_eq!(r.id, 9);
    assert_ne!(r.error.code, 0);
    assert_eq!(r.error.code, ErrorKind::MalformedHash.code());
    let r = serve(&store, 9, "getTransactions", batch(&["0x01", "zz"]), false);
    assert_eq!(r.error.code, ErrorKind::MalformedHash.code());
}

#[test]
fn single_present_hash_embedded() {
    let store = seeded_store();
    let r = serve(&store, 1, "getTransactionByHash", single("0x01"), true);
    assert_eq!(r.id, 1);
    assert_eq!(r.error.code, 0);
    assert_eq!(r.error.message, "");
    assert_eq!(r.error.data, "");
    assert_eq!(entries(&r), vec![pair("0x01", "tx1")]);
}

#[test]
fn single_lookup_same_on_both_backends() {
    let store = seeded_store();
    for (m, h, expected) in [
        ("getTransactionByHash", "0x01", vec![pair("0x01", "tx1")]),
        ("getTransactionByHash", "0x02", vec![]),
        ("getTransactionReceipt", "0x01", vec![pair("0x01", "rc1")]),
        ("getTransactionReceipt", "0x02", vec![]),
    ] {
        for embedded in [true, false] {
            let r = serve(&store, 2, m, single(h), embedded);
            assert_eq!(r.error.code, 0);
            assert_eq!(entries(&r), expected);
        }
    }
}

#[test]
fn batch_omits_absent_hash() {
    let store = seeded_store();
    for embedded in [true, false] {
        let r = serve(&store, 1, "getTransactions", batch(&["0x01", "0x02"]), embedded);
        assert_eq!(r.error.code, 0);
        assert_eq!(entries(&r), vec![pair("0x01", "tx1")]);
    }
}

#[test]
fn batch_counts_present_hashes() {
    let mut store = seeded_store();
    store.insert(key(RECEIPT_PREFIX, &[0x03]), "rc3".to_string());
    for embedded in [true, false] {
        let r = serve(
            &store,
            5,
            "getTransactionReceipts",
            batch(&["0x01", "0x02", "0x03"]),
            embedded,
        );
        assert_eq!(r.error.code, 0);
        assert_eq!(entries(&r), vec![pair("0x01", "rc1"), pair("0x03", "rc3")]);
    }
}

#[test]
fn empty_batch() {
    let store = seeded_store();
    for embedded in [true, false] {
        let r = serve(&store, 1, "getTransactions", batch(&[]), embedded);
        assert_eq!(r.error.code, 0);
        assert_eq!(entries(&r), vec![]);
    }
}

#[test]
fn plan_keys_follow_hashes() {
    let lookup = plan_request("getTransactionReceipts", &batch(&["0x0a", "0xFF"])).unwrap();
    assert_eq!(lookup.kind, RecordKind::Receipt);
    assert_eq!(lookup.hashes, vec!["0x0a".to_string(), "0xFF".to_string()]);
    assert_eq!(lookup.keys, vec![key(RECEIPT_PREFIX, &[0x0a]), key(RECEIPT_PREFIX, &[0xff])]);
}

#[test]
fn misaligned_embedded_reply() {
    let lookup = plan_request("getTransactions", &batch(&["0x01", "0x02"])).unwrap();
    let reply = BackendReply::Embedded(vec![Some("tx1".to_string())]);
    assert_eq!(collect_results(&lookup, reply), Err(ErrorKind::BackendUnavailable));
}

#[test]
fn distributed_reply_with_foreign_key() {
    let lookup = plan_request("getTransactions", &batch(&["0x01"])).unwrap();
    let reply = BackendReply::Distributed(vec![(key(RECEIPT_PREFIX, &[0x01]), "rc1".to_string())]);
    let r = respond(11, collect_results(&lookup, reply));
    assert_eq!(r.error.code, ErrorKind::MalformedKey.code());
    assert!(r.result.is_none());
}

#[test]
fn error_codes_are_distinct_and_nonzero() {
    let all = [
        ErrorKind::MissingParams,
        ErrorKind::UnknownMethod,
        ErrorKind::InvalidParams,
        ErrorKind::MalformedHash,
        ErrorKind::BackendUnavailable,
        ErrorKind::BackendTimeout,
        ErrorKind::MalformedKey,
    ];
    for (i, a) in all.iter().enumerate() {
        assert_ne!(a.code(), 0);
        assert!(!a.message().is_empty());
        for b in all.iter().skip(i + 1) {
            assert_ne!(a.code(), b.code());
        }
    }
    assert_eq!(ErrorKind::UnknownMethod.code(), -1001);
    assert_eq!(ErrorKind::MissingParams.code(), -1002);
}

#[test]
fn timeout_response() {
    let r = respond(8, Err(ErrorKind::BackendTimeout));
    assert_eq!(r.id, 8);
    assert_eq!(r.error.code, ErrorKind::BackendTimeout.code());
    assert_eq!(r.error.message, "storage backend timed out");
}

#[test]
fn single_multibyte_character_is_malformed() {
    for h in ["é", "€", "😀", "x"] {
        assert_eq!(encode_key(RecordKind::Transaction, h), Err(ErrorKind::MalformedHash));
    }
    let store = seeded_store();
    for embedded in [true, false] {
        let r = serve(&store, 6, "getTransactionByHash", single("é"), embedded);
        assert_eq!(r.error.code, ErrorKind::MalformedHash.code());
        let r = serve(&store, 6, "getTransactionReceipts", batch(&["0x01", "€"]), embedded);
        assert_eq!(r.error.code, ErrorKind::MalformedHash.code());
    }
}

#[test]
fn uppercase_hash_named_alike_on_both_backends() {
    let mut store = seeded_store();
    store.insert(key(TX_PREFIX, &[0xab, 0xcd]), "txabcd".to_string());
    for embedded in [true, false] {
        let r = serve(&store, 1, "getTransactions", batch(&["0xABcd", "0x01", "0xEE"]), embedded);
        assert_eq!(r.error.code, 0);
        assert_eq!(entries(&r), vec![pair("0x01", "tx1"), pair("0xabcd", "txabcd")]);
        let r = serve(&store, 1, "getTransactionByHash", single("0xABCD"), embedded);
        assert_eq!(entries(&r), vec![pair("0xabcd", "txabcd")]);
    }
}
