//! Small readings of what a chain's storage hands out.
use vstd::prelude::*;
use vstd::string::StringExecFns;
use vstd::utf8::{encode_utf8, valid_utf8};

verus! {

/// The number that four bytes spell with the lowest byte first.
pub open spec fn le_u32(bytes: Seq<u8>) -> u32
    recommends
        bytes.len() == 4,
{
    (bytes[0] + 256 * bytes[1] + 65536 * bytes[2] + 16777216 * bytes[3]) as u32
}

/// The last four bytes of `key`.
pub open spec fn last_four(key: Seq<u8>) -> Seq<u8>
    recommends
        key.len() >= 4,
{
    key.subrange(key.len() - 4, key.len() as int)
}

/// The address `address` cut down to its first four and its last four
/// characters.
pub open spec fn compacted(address: Seq<char>) -> Seq<char>
    recommends
        address.len() >= 4,
{
    address.subrange(0, 4) + "..."@ + address.subrange(address.len() - 4, address.len() as int)
}

/// Reads the number at the end of a storage key.
fn read_id(key: &Vec<u8>) -> (id: u32)
    requires
        key.len() >= 4,
    ensures
        id == le_u32(last_four(key@)),
{
    let n = key.len();
    let b0 = key[n - 4] as u32;
    let b1 = key[n - 3] as u32;
    let b2 = key[n - 2] as u32;
    let b3 = key[n - 1] as u32;
    b0 + 256 * b1 + 65536 * b2 + 16777216 * b3
}

/// The parachain that a storage key of the parachains ends in: its last
/// four bytes, the lowest first. The key has four bytes at least.
pub fn get_para_id_from_storage_key(key: Vec<u8>) -> (id: u32)
    requires
        key.len() >= 4,
    ensures
        id == le_u32(last_four(key@)),
{
    read_id(&key)
}

/// The item that a storage key of a collection ends in: its last four
/// bytes, the lowest first. The key has four bytes at least.
pub fn get_nft_id_from_storage_key(key: Vec<u8>) -> (id: u32)
    requires
        key.len() >= 4,
    ensures
        id == le_u32(last_four(key@)),
{
    read_id(&key)
}

/// Calls `String::from_utf8` of the standard library, which makes a
/// string of bytes that are UTF-8 and refuses others. Believed, not
/// proved: it succeeds on UTF-8 and on nothing else, and the string it
/// makes has the bytes given.
#[verifier::external_body]
fn from_utf8(bytes: Vec<u8>) -> (text: Option<String>)
    ensures
        text is Some <==> valid_utf8(bytes@),
        text matches Some(s) ==> encode_utf8(s@) == bytes@,
{
    String::from_utf8(bytes).ok()
}

/// The text that `bytes` spell in UTF-8, or `None` if they spell none.
pub fn try_str(bytes: Vec<u8>) -> (text: Option<String>)
    ensures
        text is Some <==> valid_utf8(bytes@),
        text matches Some(s) ==> encode_utf8(s@) == bytes@,
{
    from_utf8(bytes)
}

/// The text that `bytes` spell in UTF-8. The bytes are UTF-8.
pub fn str(bytes: Vec<u8>) -> (text: String)
    requires
        valid_utf8(bytes@),
    ensures
        encode_utf8(text@) == bytes@,
{
    from_utf8(bytes).unwrap()
}

/// An address cut down to its first four and its last four characters,
/// with three dots between. The address is plain ASCII of four characters
/// at least.
pub fn compact(address: &str) -> (short: String)
    requires
        address.is_ascii(),
        address@.len() >= 4,
    ensures
        short@ == compacted(address@),
{
    let n = address.unicode_len();
    let mut short = String::from_str(address.substring_ascii(0, 4));
    short.append("...");
    short.append(address.substring_ascii(n - 4, n));
    short
}

/// The number read from the end of a key is the number whose bytes stand
/// there.
pub proof fn law_le_u32_of_bytes(v: u32)
    ensures
        le_u32(
            seq![
                crate::hashing::le_byte(v, 0),
                crate::hashing::le_byte(v, 1),
                crate::hashing::le_byte(v, 2),
                crate::hashing::le_byte(v, 3),
            ],
        ) == v,
{
}

} // verus!
