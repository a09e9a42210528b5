//! Records on the wire: the concatenation of their fields in declared order.
//!
//! For each record declared in the interface definition, the scaffolding
//! provides a converter whose writer emits the fields one after another and
//! whose reader takes them back in the same order; there is no header, no
//! padding and no field tags, so both sides must agree on the declaration.
//! The keychain entry below is the declared record of the running example:
//! a key and an optional value.

use crate::codec::{
    enc_opt_string, enc_string, opt_string_fits, read_opt_string, read_opt_string_at, read_string,
    read_string_at, string_len_fits, view_opt_string, write_opt_string, write_string,
    lemma_read_opt_string_prefix, lemma_roundtrip_opt_string, lemma_roundtrip_string, DecodeError,
};
use vstd::prelude::*;

verus! {

/// The declared record of the keychain example: a key and the value stored
/// under it, if any.
pub struct KeychainEntry {
    pub key: String,
    pub value: Option<String>,
}

/// Encoding of a keychain entry: the key, then the value, nothing else.
pub open spec fn enc_entry(key: Seq<char>, value: Option<Seq<char>>) -> Seq<u8> {
    enc_string(key) + enc_opt_string(value)
}

/// Reads a keychain entry at `pos`: its fields in declared order.
pub open spec fn read_entry_at(b: Seq<u8>, pos: int) -> Result<
    ((Seq<char>, Option<Seq<char>>), int),
    DecodeError,
> {
    match read_string_at(b, pos) {
        Err(e) => Err(e),
        Ok((key, mid)) => match read_opt_string_at(b, mid) {
            Err(e) => Err(e),
            Ok((value, end)) => Ok(((key, value), end)),
        },
    }
}

/// Appends the encoding of a keychain entry.
pub fn write_entry(buf: &mut Vec<u8>, entry: &KeychainEntry)
    requires
        string_len_fits(entry.key@),
        opt_string_fits(view_opt_string(entry.value)),
    ensures
        final(buf)@ == old(buf)@ + enc_entry(entry.key@, view_opt_string(entry.value)),
{
    write_string(buf, entry.key.as_str());
    write_opt_string(buf, &entry.value);
    proof {
        assert(final(buf)@ =~= old(buf)@ + enc_entry(entry.key@, view_opt_string(entry.value)));
    }
}

/// Reads a keychain entry at `pos`.
pub fn read_entry(buf: &Vec<u8>, pos: usize) -> (r: Result<(KeychainEntry, usize), DecodeError>)
    ensures
        match read_entry_at(buf@, pos as int) {
            Ok(((key, value), end)) => r matches Ok(got) && got.0.key@ == key && view_opt_string(
                got.0.value,
            ) == value && got.1 == end,
            Err(e) => r == Err::<(KeychainEntry, usize), DecodeError>(e),
        },
{
    let (key, mid) = match read_string(buf, pos) {
        Ok(v) => v,
        Err(e) => {
            return Err(e);
        },
    };
    let (value, end) = match read_opt_string(buf, mid) {
        Ok(v) => v,
        Err(e) => {
            return Err(e);
        },
    };
    Ok((KeychainEntry { key, value }, end))
}

/// Law: entry encodings read back to the encoded fields and consume exactly
/// their bytes.
pub proof fn lemma_roundtrip_entry(key: Seq<char>, value: Option<Seq<char>>, rest: Seq<u8>)
    requires
        string_len_fits(key),
        opt_string_fits(value),
    ensures
        read_entry_at(enc_entry(key, value) + rest, 0) == Ok::<_, DecodeError>(
            ((key, value), enc_entry(key, value).len() as int),
        ),
{
    let b = enc_entry(key, value) + rest;
    let tail = enc_opt_string(value) + rest;
    lemma_roundtrip_string(key, tail);
    assert(b =~= enc_string(key) + tail);
    lemma_roundtrip_opt_string(value, rest);
    lemma_read_opt_string_prefix(enc_string(key), tail, 0);
}

} // verus!
