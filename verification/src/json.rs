//! JSON values as trees of plain values, and the bytes that feed a hasher
//! for each of them when an event's content hash is computed.

use vstd::prelude::*;
use serde_json::{Number, Value};
use std::hash::{DefaultHasher, Hasher};
use vstd::bytes::{spec_u64_to_le_bytes, u64_to_le_bytes};
use vstd::std_specs::hash::DefaultHasherAdditionalSpecFns;
use vstd::utf8::encode_utf8;
use crate::fields::key_less;

verus! {

/// `serde_json::Number`, a JSON number.
#[verifier::external_type_specification]
#[verifier::external_body]
pub struct ExJsonNumber(Number);

/// A JSON value as a tree: the kind of each node with its plain contents.
/// Numbers stay serde_json numbers; object members come in the order of the
/// object's map, which orders the names ascending.
#[derive(Debug)]
pub enum JsonTree {
    /// `null`.
    Null,
    /// `true` or `false`.
    Bool(bool),
    /// A number.
    Number(Number),
    /// A string.
    String(String),
    /// An array of values.
    Array(Vec<JsonTree>),
    /// An object: (name, value) members.
    Object(Vec<(String, JsonTree)>),
}

/// The writes that feed a string to a hasher: its UTF-8 bytes, then the
/// byte `0xff` that ends it.
pub open spec fn text_hash_writes(s: Seq<char>) -> Seq<Seq<u8>> {
    seq![encode_utf8(s), seq![0xffu8]]
}

/// The tree of the serde_json value `v`.
pub uninterp spec fn json_tree_of(v: Value) -> JsonTree;

/// The number as an `i64`, when it is an integer in that range.
pub uninterp spec fn number_i64(n: Number) -> Option<i64>;

/// The number as a `u64`, when it is an integer in that range.
pub uninterp spec fn number_u64(n: Number) -> Option<u64>;

/// The bits of the number as an `f64`, when it has that representation.
pub uninterp spec fn number_f64_bits(n: Number) -> Option<u64>;

/// Whether every object in the tree lists its members with strictly
/// ascending names.
pub open spec fn tree_sorted(t: JsonTree) -> bool
    decreases t,
{
    match t {
        JsonTree::Array(items) => forest_sorted(items@),
        JsonTree::Object(members) => {
            &&& forall|i: int, j: int|
                0 <= i < j < members@.len() ==> key_less(members@[i].0@, members@[j].0@)
            &&& members_sorted(members@)
        },
        _ => true,
    }
}

/// Whether every tree of `ts` is sorted.
pub open spec fn forest_sorted(ts: Seq<JsonTree>) -> bool
    decreases ts,
{
    if ts.len() == 0 {
        true
    } else {
        forest_sorted(ts.drop_last()) && tree_sorted(ts.last())
    }
}

/// Whether the value of every member of `ms` is sorted.
pub open spec fn members_sorted(ms: Seq<(String, JsonTree)>) -> bool
    decreases ms,
{
    if ms.len() == 0 {
        true
    } else {
        members_sorted(ms.drop_last()) && tree_sorted(ms.last().1)
    }
}

/// The tree of a serde_json value.
///
/// Tells apart the variants of `serde_json::Value` and copies their
/// contents one for one (array elements and object members in the value's
/// order); the result is named `json_tree_of`. serde_json's object map, built
/// without its `preserve_order` feature as here, is a `BTreeMap`, so members
/// come out with strictly ascending names (`String` orders by bytes, which
/// orders characters by code point).
#[verifier::external_body]
pub(crate) fn json_tree(v: &Value) -> (t: JsonTree)
    ensures
        t == json_tree_of(*v),
        tree_sorted(t),
{
    match v {
        Value::Null => JsonTree::Null,
        Value::Bool(b) => JsonTree::Bool(*b),
        Value::Number(n) => JsonTree::Number(n.clone()),
        Value::String(s) => JsonTree::String(s.clone()),
        Value::Array(a) => JsonTree::Array(a.iter().map(json_tree).collect()),
        Value::Object(m) => JsonTree::Object(m.iter().map(|(k, x)| (k.clone(), json_tree(x))).collect()),
    }
}

/// Wraps `serde_json::Number::as_i64`; the result is named `number_i64`.
#[verifier::external_body]
fn number_as_i64(n: &Number) -> (r: Option<i64>)
    ensures
        r == number_i64(*n),
{
    n.as_i64()
}

/// Wraps `serde_json::Number::as_u64`; the result is named `number_u64`.
#[verifier::external_body]
fn number_as_u64(n: &Number) -> (r: Option<u64>)
    ensures
        r == number_u64(*n),
{
    n.as_u64()
}

/// Wraps `serde_json::Number::as_f64`, giving the float's bits
/// (`to_bits`); the result is named `number_f64_bits`.
#[verifier::external_body]
fn number_as_f64_bits(n: &Number) -> (r: Option<u64>)
    ensures
        r == number_f64_bits(*n),
{
    n.as_f64().map(|x| x.to_bits())
}

/// The writes that feed a number to the hasher: the value as an `i64` when
/// it is one, else as a `u64`, else the bits of its `f64`, each as eight
/// little-endian bytes.
pub open spec fn number_writes(n: Number) -> Seq<Seq<u8>> {
    match number_i64(n) {
        Some(i) => seq![spec_u64_to_le_bytes(i as u64)],
        None => match number_u64(n) {
            Some(u) => seq![spec_u64_to_le_bytes(u)],
            None => match number_f64_bits(n) {
                Some(b) => seq![spec_u64_to_le_bytes(b)],
                None => Seq::empty(),
            },
        },
    }
}

/// The writes that feed a JSON tree to the hasher: a tag byte for the kind
/// (0 null, 1 bool, 2 number, 3 string, 4 array, 5 object), then the
/// contents: the bool as one byte, the number, the string, or the length as
/// eight little-endian bytes followed by the elements (for an object each
/// name, then its value).
pub open spec fn tree_writes(t: JsonTree) -> Seq<Seq<u8>>
    decreases t,
{
    match t {
        JsonTree::Null => seq![seq![0u8]],
        JsonTree::Bool(b) => seq![
            seq![1u8],
            seq![
                if b {
                    1u8
                } else {
                    0u8
                },
            ],
        ],
        JsonTree::Number(n) => seq![seq![2u8]] + number_writes(n),
        JsonTree::String(s) => seq![seq![3u8]] + text_hash_writes(s@),
        JsonTree::Array(items) => seq![seq![4u8], spec_u64_to_le_bytes(items.len() as u64)]
            + forest_writes(items@),
        JsonTree::Object(members) => seq![seq![5u8], spec_u64_to_le_bytes(members.len() as u64)]
            + member_writes(members@),
    }
}

/// The writes for the trees `ts`, one after another.
pub open spec fn forest_writes(ts: Seq<JsonTree>) -> Seq<Seq<u8>>
    decreases ts,
{
    if ts.len() == 0 {
        Seq::empty()
    } else {
        forest_writes(ts.drop_last()) + tree_writes(ts.last())
    }
}

/// The writes for object members: each name, then its value.
pub open spec fn member_writes(ms: Seq<(String, JsonTree)>) -> Seq<Seq<u8>>
    decreases ms,
{
    if ms.len() == 0 {
        Seq::empty()
    } else {
        member_writes(ms.drop_last()) + text_hash_writes(ms.last().0@) + tree_writes(ms.last().1)
    }
}

/// Feeds a string to the hasher.
pub fn hash_text(h: &mut DefaultHasher, s: &str)
    ensures
        final(h)@ == old(h)@ + text_hash_writes(s@),
{
    h.write(s.as_bytes());
    let end: [u8; 1] = [0xffu8];
    assert(end@ =~= seq![0xffu8]);
    h.write(&end);
    assert(h@ =~= old(h)@ + text_hash_writes(s@));
}

/// Feeds one byte to the hasher.
fn hash_byte(h: &mut DefaultHasher, b: u8)
    ensures
        final(h)@ == old(h)@.push(seq![b]),
{
    let bytes: [u8; 1] = [b];
    assert(bytes@ =~= seq![b]);
    h.write(&bytes);
}

/// Feeds eight little-endian bytes of `x` to the hasher.
fn hash_u64(h: &mut DefaultHasher, x: u64)
    ensures
        final(h)@ == old(h)@.push(spec_u64_to_le_bytes(x)),
{
    let bytes = u64_to_le_bytes(x);
    h.write(bytes.as_slice());
}

/// Feeds a number to the hasher.
fn hash_number(h: &mut DefaultHasher, n: &Number)
    ensures
        final(h)@ == old(h)@ + number_writes(*n),
{
    match number_as_i64(n) {
        Some(i) => {
            hash_u64(h, i as u64);
        },
        None => match number_as_u64(n) {
            Some(u) => {
                hash_u64(h, u);
            },
            None => match number_as_f64_bits(n) {
                Some(b) => {
                    hash_u64(h, b);
                },
                None => {},
            },
        },
    }
    assert(h@ =~= old(h)@ + number_writes(*n));
}

/// Feeds a JSON tree to the hasher.
pub fn hash_tree(h: &mut DefaultHasher, t: &JsonTree)
    ensures
        final(h)@ == old(h)@ + tree_writes(*t),
    decreases t,
{
    match t {
        JsonTree::Null => {
            hash_byte(h, 0);
        },
        JsonTree::Bool(b) => {
            hash_byte(h, 1);
            hash_byte(h, if *b { 1 } else { 0 });
        },
        JsonTree::Number(n) => {
            hash_byte(h, 2);
            hash_number(h, n);
        },
        JsonTree::String(s) => {
            hash_byte(h, 3);
            hash_text(h, s.as_str());
        },
        JsonTree::Array(items) => {
            hash_byte(h, 4);
            hash_u64(h, items.len() as u64);
            let ghost start = h@;
            let n = items.len();
            let mut i: usize = 0;
            while i < n
                invariant
                    n == items@.len(),
                    *t == JsonTree::Array(*items),
                    i <= n,
                    h@ == start + forest_writes(items@.take(i as int)),
                decreases n - i,
            {
                assert(decreases_to!(*t => (*t)->Array_0));
                assert(decreases_to!(*items => items@));
                assert(decreases_to!(items@ => items@[i as int]));
                hash_tree(h, &items[i]);
                assert(items@.take(i + 1).drop_last() =~= items@.take(i as int));
                i = i + 1;
            }
            assert(items@.take(n as int) =~= items@);
        },
        JsonTree::Object(members) => {
            hash_byte(h, 5);
            hash_u64(h, members.len() as u64);
            let ghost start = h@;
            let n = members.len();
            let mut i: usize = 0;
            while i < n
                invariant
                    n == members@.len(),
                    *t == JsonTree::Object(*members),
                    i <= n,
                    h@ == start + member_writes(members@.take(i as int)),
                decreases n - i,
            {
                hash_text(h, members[i].0.as_str());
                assert(decreases_to!(*t => (*t)->Object_0));
                assert(decreases_to!(*members => members@));
                assert(decreases_to!(members@ => members@[i as int]));
                assert(decreases_to!(members@[i as int] => members@[i as int].1));
                hash_tree(h, &members[i].1);
                assert(members@.take(i + 1).drop_last() =~= members@.take(i as int));
                i = i + 1;
            }
            assert(members@.take(n as int) =~= members@);
        },
    }
    assert(h@ =~= old(h)@ + tree_writes(*t));
}

} // verus!
