use vstd::prelude::*;
use crate::codec::{
    RecordKind, decode_key, has_prefix, hex_bytes, hex_text, is_canonical_hex, key_hash, kind_prefix,
    lemma_key_round_trip, physical_key,
};
use crate::error::ErrorKind;
use crate::request::Lookup;

verus! {

/// What a storage backend answered to one batched lookup.
///
/// Both variants are reduced to the same policy: a key without an entry is
/// left out of the result, never filled with a placeholder. Both name each
/// entry by decoding its stored key back to hex.
pub enum BackendReply {
    /// The embedded store's multi-get: one slot per requested key, in request
    /// order, `None` where the store holds no entry.
    Embedded(Vec<Option<String>>),
    /// The distributed store's batch get: the (key, value) pairs it found.
    Distributed(Vec<(Vec<u8>, String)>),
}

pub open spec fn opt_view(o: Option<String>) -> Option<Seq<char>> {
    match o {
        Some(s) => Some(s@),
        None => None,
    }
}

pub open spec fn entries_view(es: Seq<(String, String)>) -> Seq<(Seq<char>, Seq<char>)> {
    es.map_values(|e: (String, String)| (e.0@, e.1@))
}

pub open spec fn pairs_view(ps: Seq<(Vec<u8>, String)>) -> Seq<(Seq<u8>, Seq<char>)> {
    ps.map_values(|p: (Vec<u8>, String)| (p.0@, p.1@))
}

/// The (key, value) pairs of an aligned reply: each requested key with its
/// value, for the slots where a value was found, in request order.
pub open spec fn present_pairs(ks: Seq<Seq<u8>>, vs: Seq<Option<Seq<char>>>) -> Seq<
    (Seq<u8>, Seq<char>),
>
    decreases ks.len(),
{
    if ks.len() == 0 || vs.len() == 0 {
        seq![]
    } else {
        let rest = present_pairs(ks.drop_last(), vs.drop_last());
        match vs.last() {
            Some(v) => rest.push((ks.last(), v)),
            None => rest,
        }
    }
}

/// The entries named by found pairs: each key turned back into its hash.
pub open spec fn found_entries(kind: RecordKind, found: Seq<(Seq<u8>, Seq<char>)>) -> Seq<
    (Seq<char>, Seq<char>),
> {
    found.map_values(|p: (Seq<u8>, Seq<char>)| (key_hash(kind, p.0), p.1))
}

/// The (key, value) pairs that a reply found, on either backend.
pub open spec fn reply_pairs(lookup: Lookup, reply: BackendReply) -> Seq<(Seq<u8>, Seq<char>)> {
    match reply {
        BackendReply::Embedded(vs) => present_pairs(
            lookup.key_views(),
            vs@.map_values(|o: Option<String>| opt_view(o)),
        ),
        BackendReply::Distributed(found) => pairs_view(found@),
    }
}

pub open spec fn all_keys_prefixed(kind: RecordKind, ps: Seq<(Seq<u8>, Seq<char>)>) -> bool {
    forall|i: int| 0 <= i < ps.len() ==> has_prefix(#[trigger] ps[i].0, kind_prefix(kind))
}

/// How many slots of an aligned reply hold a value.
pub open spec fn count_present(vs: Seq<Option<Seq<char>>>) -> nat
    decreases vs.len(),
{
    if vs.len() == 0 {
        0
    } else {
        count_present(vs.drop_last()) + if vs.last() is Some {
            1nat
        } else {
            0nat
        }
    }
}

/// The aligned reply that a store holding `store` gives to the keys `ks`.
pub open spec fn embedded_reply_of(store: Map<Seq<u8>, Seq<char>>, ks: Seq<Seq<u8>>) -> Seq<
    Option<Seq<char>>,
> {
    Seq::new(
        ks.len(),
        |i: int|
            if store.contains_key(ks[i]) {
                Some(store[ks[i]])
            } else {
                None
            },
    )
}

/// The found pairs that a store holding `store` gives to the keys `ks`, listed
/// in request order.
pub open spec fn distributed_reply_of(store: Map<Seq<u8>, Seq<char>>, ks: Seq<Seq<u8>>) -> Seq<
    (Seq<u8>, Seq<char>),
>
    decreases ks.len(),
{
    if ks.len() == 0 {
        seq![]
    } else {
        let rest = distributed_reply_of(store, ks.drop_last());
        if store.contains_key(ks.last()) {
            rest.push((ks.last(), store[ks.last()]))
        } else {
            rest
        }
    }
}

/// Pairs each requested key with the value found for it, skipping the slots
/// without a value.
fn present_pairs_of(keys: &Vec<Vec<u8>>, values: Vec<Option<String>>) -> (r: Vec<(Vec<u8>, String)>)
    requires
        keys@.len() == values@.len(),
    ensures
        pairs_view(r@) == present_pairs(
            keys@.map_values(|k: Vec<u8>| k@),
            values@.map_values(|o: Option<String>| opt_view(o)),
        ),
{
    let ghost ks = keys@.map_values(|k: Vec<u8>| k@);
    let ghost vs = values@.map_values(|o: Option<String>| opt_view(o));
    let mut out: Vec<(Vec<u8>, String)> = Vec::new();
    let mut i: usize = 0;
    while i < values.len()
        invariant
            ks == keys@.map_values(|k: Vec<u8>| k@),
            vs == values@.map_values(|o: Option<String>| opt_view(o)),
            keys@.len() == values@.len(),
            i <= values@.len(),
            pairs_view(out@) == present_pairs(ks.take(i as int), vs.take(i as int)),
        decreases values.len() - i,
    {
        let ghost before = out@;
        assert(ks.take(i + 1).drop_last() =~= ks.take(i as int));
        assert(vs.take(i + 1).drop_last() =~= vs.take(i as int));
        match &values[i] {
            Some(v) => {
                let k = keys[i].clone();
                assert(k@ =~= ks[i as int]);
                out.push((k, v.clone()));
                assert(pairs_view(out@) =~= pairs_view(before).push((ks[i as int], v@)));
            },
            None => {},
        }
        i = i + 1;
    }
    assert(ks.take(i as int) =~= ks);
    assert(vs.take(i as int) =~= vs);
    out
}

/// Turns each found key back into its hash, failing on a key that lacks the
/// table prefix of `kind`.
fn collect_found(kind: RecordKind, found: Vec<(Vec<u8>, String)>) -> (r: Result<
    Vec<(String, String)>,
    ErrorKind,
>)
    ensures
        all_keys_prefixed(kind, pairs_view(found@)) ==> r is Ok && entries_view(r->Ok_0@)
            == found_entries(kind, pairs_view(found@)),
        !all_keys_prefixed(kind, pairs_view(found@)) ==> r == Err::<Vec<(String, String)>, ErrorKind>(
            ErrorKind::MalformedKey,
        ),
{
    let mut out: Vec<(String, String)> = Vec::new();
    let mut i: usize = 0;
    while i < found.len()
        invariant
            i <= found@.len(),
            out@.len() == i,
            forall|j: int| 0 <= j < i ==> has_prefix(#[trigger] found@[j].0@, kind_prefix(kind)),
            forall|j: int|
                0 <= j < i ==> #[trigger] out@[j].0@ == key_hash(kind, found@[j].0@) && out@[j].1@
                    == found@[j].1@,
        decreases found.len() - i,
    {
        match decode_key(kind, &found[i].0) {
            Ok(h) => {
                out.push((h, found[i].1.clone()));
            },
            Err(_) => {
                assert(pairs_view(found@)[i as int].0 == found@[i as int].0@);
                return Err(ErrorKind::MalformedKey);
            },
        }
        i = i + 1;
    }
    assert(all_keys_prefixed(kind, pairs_view(found@)));
    assert(entries_view(out@) =~= found_entries(kind, pairs_view(found@)));
    Ok(out)
}

/// Builds the result entries of a lookup from the backend's reply.
///
/// An aligned reply whose length differs from the number of keys is a backend
/// failure; a found key without the expected table prefix is a malformed key.
pub fn collect_results(lookup: &Lookup, reply: BackendReply) -> (r: Result<
    Vec<(String, String)>,
    ErrorKind,
>)
    ensures
        reply is Embedded && reply->Embedded_0@.len() != lookup.keys@.len() ==> r == Err::<
            Vec<(String, String)>,
            ErrorKind,
        >(ErrorKind::BackendUnavailable),
        !(reply is Embedded && reply->Embedded_0@.len() != lookup.keys@.len()) ==> {
            let ps = reply_pairs(*lookup, reply);
            &&& all_keys_prefixed(lookup.kind, ps) ==> r is Ok && entries_view(r->Ok_0@)
                == found_entries(lookup.kind, ps)
            &&& !all_keys_prefixed(lookup.kind, ps) ==> r == Err::<Vec<(String, String)>, ErrorKind>(
                ErrorKind::MalformedKey,
            )
        },
{
    match reply {
        BackendReply::Embedded(values) => {
            if values.len() != lookup.keys.len() {
                Err(ErrorKind::BackendUnavailable)
            } else {
                collect_found(lookup.kind, present_pairs_of(&lookup.keys, values))
            }
        },
        BackendReply::Distributed(found) => collect_found(lookup.kind, found),
    }
}

/// An aligned reply yields one found pair per slot that holds a value, and
/// found pairs yield one entry each.
pub proof fn lemma_entry_count(
    kind: RecordKind,
    ks: Seq<Seq<u8>>,
    vs: Seq<Option<Seq<char>>>,
    found: Seq<(Seq<u8>, Seq<char>)>,
)
    requires
        ks.len() == vs.len(),
    ensures
        present_pairs(ks, vs).len() == count_present(vs),
        count_present(vs) <= vs.len(),
        found_entries(kind, found).len() == found.len(),
    decreases ks.len(),
{
    if ks.len() > 0 {
        lemma_entry_count(kind, ks.drop_last(), vs.drop_last(), found);
    }
}

/// Over the same stored contents, the two backends find the same pairs for
/// any keys, so they give the same entries: one per requested key that is
/// stored, with its value, and none for the others.
pub proof fn lemma_backends_agree(store: Map<Seq<u8>, Seq<char>>, kind: RecordKind, ks: Seq<Seq<u8>>)
    ensures
        present_pairs(ks, embedded_reply_of(store, ks)) == distributed_reply_of(store, ks),
        found_entries(kind, present_pairs(ks, embedded_reply_of(store, ks))) == found_entries(
            kind,
            distributed_reply_of(store, ks),
        ),
        found_entries(kind, distributed_reply_of(store, ks)).len() == count_present(
            embedded_reply_of(store, ks),
        ),
    decreases ks.len(),
{
    let vs = embedded_reply_of(store, ks);
    lemma_entry_count(kind, ks, vs, distributed_reply_of(store, ks));
    if ks.len() > 0 {
        let ks0 = ks.drop_last();
        assert(embedded_reply_of(store, ks0) =~= vs.drop_last());
        lemma_backends_agree(store, kind, ks0);
    }
    assert(present_pairs(ks, vs) == distributed_reply_of(store, ks));
}

/// The key of a hash decodes to the lowercase spelling of that hash: the hash
/// itself where it is written in lowercase.
pub proof fn lemma_key_names_hash(kind: RecordKind, h: Seq<char>)
    ensures
        key_hash(kind, physical_key(kind, h)) == hex_text(hex_bytes(h)),
        is_canonical_hex(h) ==> key_hash(kind, physical_key(kind, h)) == h,
{
    assert(physical_key(kind, h).skip(kind_prefix(kind).len() as int) =~= hex_bytes(h));
    if is_canonical_hex(h) {
        lemma_key_round_trip(kind, h);
    }
}

/// A single-hash lookup yields, on either backend, one entry when the hash's
/// key is stored, naming the hash in lowercase with its stored value, and none
/// otherwise.
pub proof fn lemma_single_lookup(store: Map<Seq<u8>, Seq<char>>, kind: RecordKind, h: Seq<char>)
    ensures
        ({
            let k = physical_key(kind, h);
            let expected = if store.contains_key(k) {
                seq![(hex_text(hex_bytes(h)), store[k])]
            } else {
                seq![]
            };
            &&& found_entries(kind, present_pairs(seq![k], embedded_reply_of(store, seq![k])))
                == expected
            &&& found_entries(kind, distributed_reply_of(store, seq![k])) == expected
        }),
{
    let k = physical_key(kind, h);
    let ks = seq![k];
    lemma_backends_agree(store, kind, ks);
    lemma_key_names_hash(kind, h);
    assert(ks.drop_last() =~= seq![]);
    let d = distributed_reply_of(store, ks);
    assert(distributed_reply_of(store, ks.drop_last()).len() == 0);
    if store.contains_key(k) {
        assert(found_entries(kind, d) =~= seq![(hex_text(hex_bytes(h)), store[k])]);
    } else {
        assert(found_entries(kind, d) =~= seq![]);
    }
}

} // verus!
