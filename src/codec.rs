use vstd::prelude::*;
use crate::error::ErrorKind;

verus! {

/// The two kinds of archived record. Each kind lives under its own table
/// prefix in the key space.
#[derive(Debug, Clone, Copy, PartialEq, Eq, Structural)]
pub enum RecordKind {
    Transaction,
    Receipt,
}

/// The table prefix of a kind: `s_hash_2_tx:` or `s_hash_2_receipt:` in ASCII.
pub open spec fn kind_prefix(kind: RecordKind) -> Seq<u8> {
    match kind {
        RecordKind::Transaction => seq![
            // s_hash_2_tx:
            115u8, 95, 104, 97, 115, 104, 95, 50, 95, 116, 120, 58,
        ],
        RecordKind::Receipt => seq![
            // s_hash_2_receipt:
            115u8, 95, 104, 97, 115, 104, 95, 50, 95, 114, 101, 99, 101, 105, 112, 116, 58,
        ],
    }
}

pub open spec fn is_hex_digit(c: char) -> bool {
    ('0' <= c && c <= '9') || ('a' <= c && c <= 'f') || ('A' <= c && c <= 'F')
}

pub open spec fn is_upper_hex_letter(c: char) -> bool {
    'A' <= c && c <= 'F'
}

/// The value of one hex digit of either case.
pub open spec fn digit_value(c: char) -> int {
    if '0' <= c && c <= '9' {
        c as int - '0' as int
    } else if 'a' <= c && c <= 'f' {
        c as int - 'a' as int + 10
    } else {
        c as int - 'A' as int + 10
    }
}

/// The lowercase hex digit of a value below 16.
pub open spec fn lower_digit(v: int) -> char {
    if v < 10 {
        (v + '0' as int) as char
    } else {
        (v - 10 + 'a' as int) as char
    }
}

/// `0x` followed by an even number of hex digits of either case.
pub open spec fn is_prefixed_hex(s: Seq<char>) -> bool {
    &&& s.len() >= 2
    &&& s[0] == '0'
    &&& s[1] == 'x'
    &&& s.len() % 2 == 0
    &&& forall|i: int| 2 <= i < s.len() ==> is_hex_digit(#[trigger] s[i])
}

/// Prefixed hex as it is written back out: digits in lowercase only.
pub open spec fn is_canonical_hex(s: Seq<char>) -> bool {
    &&& is_prefixed_hex(s)
    &&& forall|i: int| 2 <= i < s.len() ==> !is_upper_hex_letter(#[trigger] s[i])
}

/// The bytes that prefixed hex denotes: two digits per byte, high half first.
pub open spec fn hex_bytes(s: Seq<char>) -> Seq<u8> {
    Seq::new(
        ((s.len() - 2) / 2) as nat,
        |i: int| (16 * digit_value(s[2 + 2 * i]) + digit_value(s[3 + 2 * i])) as u8,
    )
}

/// `0x` followed by two lowercase hex digits per byte, high half first.
pub open spec fn hex_text(b: Seq<u8>) -> Seq<char> {
    seq!['0', 'x'] + Seq::new(
        2 * b.len(),
        |i: int|
            if i % 2 == 0 {
                lower_digit(b[i / 2] as int / 16)
            } else {
                lower_digit(b[i / 2] as int % 16)
            },
    )
}

/// The physical key under which a record of `kind` with hash `h` is stored.
pub open spec fn physical_key(kind: RecordKind, h: Seq<char>) -> Seq<u8> {
    kind_prefix(kind) + hex_bytes(h)
}

pub open spec fn has_prefix(key: Seq<u8>, p: Seq<u8>) -> bool {
    p.len() <= key.len() && key.subrange(0, p.len() as int) == p
}

/// The hash that a stored key of `kind` names, once its prefix is stripped.
pub open spec fn key_hash(kind: RecordKind, key: Seq<u8>) -> Seq<char> {
    hex_text(key.skip(kind_prefix(kind).len() as int))
}

/// The ASCII bytes of a kind's table prefix.
pub fn prefix_of(kind: RecordKind) -> (r: Vec<u8>)
    ensures
        r@ == kind_prefix(kind),
{
    match kind {
        RecordKind::Transaction => vec![
            // s_hash_2_tx:
            115u8, 95, 104, 97, 115, 104, 95, 50, 95, 116, 120, 58,
        ],
        RecordKind::Receipt => vec![
            // s_hash_2_receipt:
            115u8, 95, 104, 97, 115, 104, 95, 50, 95, 114, 101, 99, 101, 105, 112, 116, 58,
        ],
    }
}

/// The error of `prefix_hex` decoding, carried opaque and mapped to
/// `ErrorKind::MalformedHash`.
#[verifier::external_type_specification]
#[verifier::external_body]
pub struct ExHexError(prefix_hex::Error);

/// Relies on `prefix_hex::decode` into `Vec<u8>`: it strips a leading `0x`
/// and hands the rest to `hex::decode`, which accepts an even number of hex
/// digits of either case and yields one byte per pair, high half first.
/// A text of one character is left out: when that character takes more than
/// one byte, `prefix_hex`'s prefix check reads a second character that is not
/// there and panics.
#[verifier::external_body]
fn decode_prefixed_hex(s: &str) -> (r: Result<Vec<u8>, prefix_hex::Error>)
    requires
        s@.len() != 1,
    ensures
        r is Ok <==> is_prefixed_hex(s@),
        r is Ok ==> r->Ok_0@ == hex_bytes(s@),
{
    prefix_hex::decode::<Vec<u8>>(s)
}

/// Relies on `prefix_hex::encode` of a `Vec<u8>`: `0x` followed by
/// `hex::encode`, two lowercase digits per byte, high half first.
#[verifier::external_body]
fn encode_prefixed_hex(b: Vec<u8>) -> (r: String)
    ensures
        r@ == hex_text(b@),
{
    prefix_hex::encode(b)
}

/// Maps a record kind and a `0x`-prefixed hex hash to its physical key: the
/// kind's table prefix followed by the decoded hash bytes.
pub fn encode_key(kind: RecordKind, hash: &str) -> (r: Result<Vec<u8>, ErrorKind>)
    ensures
        is_prefixed_hex(hash@) ==> r == Ok::<Vec<u8>, ErrorKind>(r->Ok_0) && r->Ok_0@
            == physical_key(kind, hash@),
        !is_prefixed_hex(hash@) ==> r == Err::<Vec<u8>, ErrorKind>(ErrorKind::MalformedHash),
{
    if hash.unicode_len() < 2 {
        return Err(ErrorKind::MalformedHash);
    }
    match decode_prefixed_hex(hash) {
        Ok(mut bytes) => {
            let mut key = prefix_of(kind);
            key.append(&mut bytes);
            Ok(key)
        },
        Err(_) => Err(ErrorKind::MalformedHash),
    }
}

/// Maps a physical key back to the hex hash it was built from, checking that
/// it carries the table prefix of `kind`.
pub fn decode_key(kind: RecordKind, key: &Vec<u8>) -> (r: Result<String, ErrorKind>)
    ensures
        has_prefix(key@, kind_prefix(kind)) ==> r is Ok && r->Ok_0@ == key_hash(kind, key@),
        !has_prefix(key@, kind_prefix(kind)) ==> r == Err::<String, ErrorKind>(
            ErrorKind::MalformedKey,
        ),
{
    let prefix = prefix_of(kind);
    if key.len() < prefix.len() {
        return Err(ErrorKind::MalformedKey);
    }
    let mut i: usize = 0;
    while i < prefix.len()
        invariant
            prefix@ == kind_prefix(kind),
            prefix.len() <= key.len(),
            i <= prefix.len(),
            forall|j: int| 0 <= j < i ==> key@[j] == prefix@[j],
        decreases prefix.len() - i,
    {
        if key[i] != prefix[i] {
            assert(key@.subrange(0, prefix.len() as int)[i as int] != prefix@[i as int]);
            return Err(ErrorKind::MalformedKey);
        }
        i = i + 1;
    }
    assert(key@.subrange(0, prefix.len() as int) =~= prefix@);
    let mut rest: Vec<u8> = Vec::new();
    let mut j: usize = prefix.len();
    while j < key.len()
        invariant
            prefix.len() <= j <= key.len(),
            rest@ == key@.subrange(prefix.len() as int, j as int),
        decreases key.len() - j,
    {
        rest.push(key[j]);
        j = j + 1;
        assert(rest@ =~= key@.subrange(prefix.len() as int, j as int));
    }
    assert(rest@ =~= key@.skip(prefix.len() as int));
    Ok(encode_prefixed_hex(rest))
}

proof fn lemma_digit_round_trip(c: char)
    requires
        is_hex_digit(c),
        !is_upper_hex_letter(c),
    ensures
        0 <= digit_value(c) < 16,
        lower_digit(digit_value(c)) == c,
{
}

/// Decoding the key of a lowercase hex hash gives back that very hash: the key
/// carries the kind's prefix, and what follows re-encodes to the input text.
pub proof fn lemma_key_round_trip(kind: RecordKind, h: Seq<char>)
    requires
        is_canonical_hex(h),
    ensures
        has_prefix(physical_key(kind, h), kind_prefix(kind)),
        key_hash(kind, physical_key(kind, h)) == h,
{
    let p = kind_prefix(kind);
    let k = physical_key(kind, h);
    let b = hex_bytes(h);
    assert(k.subrange(0, p.len() as int) =~= p);
    assert(k.skip(p.len() as int) =~= b);
    let t = hex_text(b);
    assert(t.len() == h.len());
    assert forall|j: int| 0 <= j < h.len() implies t[j] == h[j] by {
        if j >= 2 {
            let i = j - 2;
            let n = i / 2;
            let hi = digit_value(h[2 + 2 * n]);
            let lo = digit_value(h[3 + 2 * n]);
            lemma_digit_round_trip(h[2 + 2 * n]);
            lemma_digit_round_trip(h[3 + 2 * n]);
            assert(b[n] as int == 16 * hi + lo);
            assert((16 * hi + lo) / 16 == hi) by (nonlinear_arith)
                requires 0 <= hi < 16, 0 <= lo < 16;
            assert((16 * hi + lo) % 16 == lo) by (nonlinear_arith)
                requires 0 <= hi < 16, 0 <= lo < 16;
        }
    }
    assert(t =~= h);
}

/// Keys of different kinds never collide, and no key of one kind carries the
/// prefix of the other.
pub proof fn lemma_kinds_disjoint(h1: Seq<char>, h2: Seq<char>)
    ensures
        physical_key(RecordKind::Transaction, h1) != physical_key(RecordKind::Receipt, h2),
        !has_prefix(physical_key(RecordKind::Transaction, h1), kind_prefix(RecordKind::Receipt)),
        !has_prefix(physical_key(RecordKind::Receipt, h2), kind_prefix(RecordKind::Transaction)),
{
    let t = physical_key(RecordKind::Transaction, h1);
    let r = physical_key(RecordKind::Receipt, h2);
    assert(t[9] == 116u8);
    assert(r[9] == 114u8);
    if has_prefix(t, kind_prefix(RecordKind::Receipt)) {
        assert(t.subrange(0, 17)[9] == t[9]);
    }
    if has_prefix(r, kind_prefix(RecordKind::Transaction)) {
        assert(r.subrange(0, 12)[9] == r[9]);
    }
}

} // verus!
