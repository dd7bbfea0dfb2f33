//! Key codec of the key-value backend: a record of table `t` whose index
//! column holds `i` is stored under `hhhh.hhhh.hhhh`, four hex digits of a
//! 16-bit hash of `t`, then the high and low halves of a 32-bit hash of `i`.

use vstd::prelude::*;
use vstd::utf8::encode_utf8;
use vstd::wrapping::u32_specs;
use crate::strings::{push_char, starts_with};

verus! {

/// One round of the times-33 hash.
pub open spec fn times33_step(h: u32, b: u8) -> u32 {
    u32_specs::wrapping_add(u32_specs::wrapping_mul(h, 33), b as u32)
}

/// The times-33 hash of a byte sequence, starting from 5381.
pub open spec fn times33_of(bytes: Seq<u8>) -> u32
    decreases bytes.len(),
{
    if bytes.len() == 0 {
        5381
    } else {
        times33_step(times33_of(bytes.drop_last()), bytes.last())
    }
}

/// The hash of a string: times-33 over its UTF-8 bytes.
pub open spec fn str_hash(s: Seq<char>) -> u32 {
    times33_of(encode_utf8(s))
}

/// A lowercase hex digit.
pub open spec fn hex_digit(d: u16) -> char {
    if d < 10 {
        (48 + d) as char
    } else {
        (87 + d) as char
    }
}

/// Four lowercase hex digits, zero padded.
pub open spec fn hex4(n: u16) -> Seq<char> {
    seq![
        hex_digit(n / 4096),
        hex_digit((n / 256) % 16),
        hex_digit((n / 16) % 16),
        hex_digit(n % 16),
    ]
}

/// The part of every key of a table that comes before its index hash.
pub open spec fn table_prefix(table: Seq<char>) -> Seq<char> {
    hex4(str_hash(table) as u16).push('.')
}

/// The part of a key that comes from the index value: the high and low
/// halves of its hash.
pub open spec fn index_segment(index: Seq<char>) -> Seq<char> {
    let h = str_hash(index);
    hex4((h / 0x10000) as u16).push('.') + hex4(h as u16)
}

/// The key under which the record with index value `index` of `table` is stored.
pub open spec fn key_of(table: Seq<char>, index: Seq<char>) -> Seq<char> {
    table_prefix(table) + index_segment(index)
}

/// Whether `key` lies in the key range of `table`.
pub open spec fn key_in_table(key: Seq<char>, table: Seq<char>) -> bool {
    let p = table_prefix(table);
    p.len() <= key.len() && key.subrange(0, p.len() as int) == p
}

/// The times-33 hash of the UTF-8 bytes of `data`.
pub fn times33(data: &str) -> (r: u32)
    ensures
        r == str_hash(data@),
{
    let bytes = data.as_bytes();
    let mut hash: u32 = 5381;
    let mut i: usize = 0;
    while i < bytes.len()
        invariant
            bytes@ == encode_utf8(data@),
            i <= bytes@.len(),
            hash == times33_of(bytes@.subrange(0, i as int)),
        decreases bytes@.len() - i,
    {
        assert(bytes@.subrange(0, i + 1).drop_last() =~= bytes@.subrange(0, i as int));
        hash = hash.wrapping_mul(33).wrapping_add(bytes[i] as u32);
        i = i + 1;
    }
    assert(bytes@.subrange(0, i as int) =~= bytes@);
    hash
}

fn push_hex_digit(s: &mut String, d: u16)
    requires
        d < 16,
    ensures
        final(s)@ == old(s)@.push(hex_digit(d)),
{
    let c = if d < 10 {
        (48 + d as u8) as char
    } else {
        (87 + d as u8) as char
    };
    push_char(s, c);
}

fn push_hex4(s: &mut String, n: u16)
    ensures
        final(s)@ == old(s)@ + hex4(n),
{
    push_hex_digit(s, n / 4096);
    push_hex_digit(s, (n / 256) % 16);
    push_hex_digit(s, (n / 16) % 16);
    push_hex_digit(s, n % 16);
    assert(final(s)@ =~= old(s)@ + hex4(n));
}

/// The key of the record of `table_name` whose index column holds `index`.
pub fn gen_fcss_key(table_name: &str, index: &str) -> (r: String)
    ensures
        r@ == key_of(table_name@, index@),
{
    let table_hash = times33(table_name) as u16;
    let index_hash = times33(index);
    let mut key = String::new();
    push_hex4(&mut key, table_hash);
    push_char(&mut key, '.');
    push_hex4(&mut key, (index_hash >> 16) as u16);
    push_char(&mut key, '.');
    push_hex4(&mut key, index_hash as u16);
    assert((index_hash >> 16) == index_hash / 0x10000) by (bit_vector);
    assert(key@ =~= key_of(table_name@, index@));
    key
}

/// Whether `key` belongs to `table_name`: it starts with the table's hash
/// prefix.
pub fn key_is_match_table(key: &str, table_name: &str) -> (r: bool)
    ensures
        r == key_in_table(key@, table_name@),
{
    let table_hash = times33(table_name) as u16;
    let mut prefix = String::new();
    push_hex4(&mut prefix, table_hash);
    push_char(&mut prefix, '.');
    starts_with(key, prefix.as_str())
}

/// Keys are a function of their inputs: equal table names and index values
/// give equal keys.
pub proof fn lemma_key_deterministic(t1: Seq<char>, i1: Seq<char>, t2: Seq<char>, i2: Seq<char>)
    requires
        t1 == t2,
        i1 == i2,
    ensures
        key_of(t1, i1) == key_of(t2, i2),
{
}

/// Every key that a table generates lies in that table's key range.
pub proof fn lemma_key_in_own_table(table: Seq<char>, index: Seq<char>)
    ensures
        key_in_table(key_of(table, index), table),
{
    let p = table_prefix(table);
    let k = key_of(table, index);
    assert(k.subrange(0, p.len() as int) =~= p);
}

/// Two keys of one table agree on the table segment, their first five
/// characters, and differ at most in the rest, which comes from the index
/// value alone.
pub proof fn lemma_keys_differ_only_in_index_segment(table: Seq<char>, i1: Seq<char>, i2: Seq<char>)
    ensures
        key_of(table, i1).len() == 14,
        key_of(table, i1).subrange(0, 5) == table_prefix(table),
        key_of(table, i1).subrange(0, 5) == key_of(table, i2).subrange(0, 5),
        key_of(table, i1).subrange(5, 14) == index_segment(i1),
{
    let p = table_prefix(table);
    let k1 = key_of(table, i1);
    let k2 = key_of(table, i2);
    assert(p.len() == 5);
    assert(index_segment(i1).len() == 9);
    assert(index_segment(i2).len() == 9);
    assert(k1.subrange(0, 5) =~= p);
    assert(k2.subrange(0, 5) =~= p);
    assert(k1.subrange(5, 14) =~= index_segment(i1));
}

} // verus!
