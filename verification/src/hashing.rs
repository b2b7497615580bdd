//! The digest of a block's cores, by which two blocks are told to match.
//!
//! A digest is 32 bytes. The game keeps it as a pair of numbers: the first 16
//! bytes and the last 16 bytes, each read with its first byte as the highest.
//! Pairs compare as the digests do when taken as byte strings.
use vstd::prelude::*;
use crate::corespace::Core;
use crate::game::GameLevel;

verus! {

/// A digest as its high and low halves.
pub type CorespaceHash = (u128, u128);

/// The BLAKE2b digest of 32 bytes of `data`.
pub uninterp spec fn blake2_256_digest(data: Seq<u8>) -> Seq<u8>;

/// Calls `sp_core_hashing::blake2_256`, which hashes `data` with BLAKE2b to
/// 32 bytes. Believed, not proved: the bytes returned are a function of the
/// bytes given and of nothing else.
#[verifier::external_body]
fn blake2_256(data: &[u8]) -> (digest: [u8; 32])
    ensures
        digest@ == blake2_256_digest(data@),
{
    sp_core_hashing::blake2_256(data)
}

/// 256 to the power of `n`.
pub open spec fn radix(n: nat) -> nat
    decreases n,
{
    if n == 0 {
        1
    } else {
        256 * radix((n - 1) as nat)
    }
}

/// The number that `bytes` spell with the first byte as the highest.
pub open spec fn be_value(bytes: Seq<u8>) -> nat
    decreases bytes.len(),
{
    if bytes.len() == 0 {
        0
    } else {
        256 * be_value(bytes.drop_last()) + bytes.last() as nat
    }
}

/// The pair that stands for the digest `digest`.
pub open spec fn digest_key(digest: Seq<u8>) -> CorespaceHash
    recommends
        digest.len() == 32,
{
    (be_value(digest.subrange(0, 16)) as u128, be_value(digest.subrange(16, 32)) as u128)
}

/// Whether the pair `a` comes before the pair `b`.
pub open spec fn key_lt(a: CorespaceHash, b: CorespaceHash) -> bool {
    a.0 < b.0 || (a.0 == b.0 && a.1 < b.1)
}

/// Whether the byte string `a` comes before `b` of the same length: at the
/// first place where they differ, `a` has the lower byte.
pub open spec fn bytes_lt(a: Seq<u8>, b: Seq<u8>) -> bool
    recommends
        a.len() == b.len(),
{
    exists|i: int|
        0 <= i < a.len() && a.subrange(0, i) == b.subrange(0, i) && #[trigger] a[i] < b[i]
}

/// The occupant that a core counts for at the second level: the parachain,
/// or 0 for an empty core.
pub open spec fn occupant(core: Core) -> u32 {
    match core.para_id {
        Some(id) => id,
        None => 0,
    }
}

/// Byte `k` of `v`, the lowest byte first.
pub open spec fn le_byte(v: u32, k: int) -> u8
    recommends
        0 <= k < 4,
{
    if k == 0 {
        (v % 256) as u8
    } else if k == 1 {
        ((v / 256) % 256) as u8
    } else if k == 2 {
        ((v / 65536) % 256) as u8
    } else {
        (v / 16777216) as u8
    }
}

/// What is hashed of a block's cores at `level`. At the first level one byte
/// for each core: 1 if it is occupied, 0 if not. At the second level four
/// bytes for each core: its occupant, the lowest byte first.
pub open spec fn hash_input(corespace: Seq<Core>, level: GameLevel) -> Seq<u8> {
    match level {
        GameLevel::Level1 => Seq::new(
            corespace.len(),
            |i: int|
                if corespace[i].para_id is Some {
                    1u8
                } else {
                    0u8
                },
        ),
        GameLevel::Level2 => Seq::new(
            4 * corespace.len(),
            |j: int| le_byte(occupant(corespace[j / 4]), j % 4),
        ),
    }
}

/// The hash of a block's cores at `level`.
pub open spec fn corespace_key(corespace: Seq<Core>, level: GameLevel) -> CorespaceHash {
    digest_key(blake2_256_digest(hash_input(corespace, level)))
}

/// At the first level, blocks whose cores are occupied in the same places
/// have the same hash, whatever parachains occupy them. At the second
/// level, blocks whose cores have the same occupants have the same hash,
/// an empty core counting as parachain 0.
pub proof fn law_same_pattern_same_hash(a: Seq<Core>, b: Seq<Core>)
    requires
        a.len() == b.len(),
    ensures
        (forall|i: int| 0 <= i < a.len() ==> (a[i].para_id is Some <==> b[i].para_id is Some))
            ==> corespace_key(a, GameLevel::Level1) == corespace_key(b, GameLevel::Level1),
        (forall|i: int| 0 <= i < a.len() ==> occupant(a[i]) == occupant(b[i])) ==> corespace_key(
            a,
            GameLevel::Level2,
        ) == corespace_key(b, GameLevel::Level2),
{
    if forall|i: int| 0 <= i < a.len() ==> (a[i].para_id is Some <==> b[i].para_id is Some) {
        assert(hash_input(a, GameLevel::Level1) =~= hash_input(b, GameLevel::Level1));
    }
    if forall|i: int| 0 <= i < a.len() ==> occupant(a[i]) == occupant(b[i]) {
        assert forall|j: int| 0 <= j < 4 * a.len() implies hash_input(a, GameLevel::Level2)[j]
            == hash_input(b, GameLevel::Level2)[j] by {
            assert(0 <= j / 4 < a.len());
        }
        assert(hash_input(a, GameLevel::Level2) =~= hash_input(b, GameLevel::Level2));
    }
}

/// A number of `n` bytes is below 256 to the power of `n`.
pub proof fn lemma_be_value_bound(bytes: Seq<u8>)
    ensures
        be_value(bytes) < radix(bytes.len()),
    decreases bytes.len(),
{
    if bytes.len() > 0 {
        lemma_be_value_bound(bytes.drop_last());
    }
}

/// Sixteen bytes fill a `u128` and no more.
pub proof fn lemma_radix_16()
    ensures
        radix(16) == 0x1_0000_0000_0000_0000_0000_0000_0000_0000,
{
    reveal_with_fuel(radix, 17);
}

/// The powers of 256 do not fall.
pub proof fn lemma_radix_monotonic(m: nat, n: nat)
    requires
        m <= n,
    ensures
        1 <= radix(m) <= radix(n),
    decreases n,
{
    if n > 0 {
        if m < n {
            lemma_radix_monotonic(m, (n - 1) as nat);
        } else {
            lemma_radix_monotonic((m - 1) as nat, (n - 1) as nat);
        }
    }
}

/// Byte strings of one length spell the same number only if they are the
/// same, and the lower number if and only if they come first.
pub proof fn lemma_be_value_order(a: Seq<u8>, b: Seq<u8>)
    requires
        a.len() == b.len(),
    ensures
        be_value(a) == be_value(b) <==> a == b,
        be_value(a) < be_value(b) <==> bytes_lt(a, b),
    decreases a.len(),
{
    if a.len() == 0 {
        assert(a =~= b);
    } else {
        let front_a = a.drop_last();
        let front_b = b.drop_last();
        let last = a.len() - 1;
        lemma_be_value_order(front_a, front_b);
        if front_a == front_b {
            if a.last() == b.last() {
                assert(a =~= front_a.push(a.last()));
                assert(b =~= front_b.push(b.last()));
            }
            if a.last() < b.last() {
                assert(a.subrange(0, last) =~= b.subrange(0, last));
                assert(a[last] < b[last]);
            }
            if bytes_lt(a, b) {
                let i = choose|i: int|
                    0 <= i < a.len() && a.subrange(0, i) == b.subrange(0, i) && #[trigger] a[i]
                        < b[i];
                if i < last {
                    assert(front_a[i] == a[i] && front_b[i] == b[i]);
                }
            }
        } else {
            assert(a != b) by {
                if a == b {
                    assert(front_a =~= front_b);
                }
            }
            if bytes_lt(front_a, front_b) {
                let i = choose|i: int|
                    0 <= i < front_a.len() && front_a.subrange(0, i) == front_b.subrange(0, i)
                        && #[trigger] front_a[i] < front_b[i];
                assert(a.subrange(0, i) =~= front_a.subrange(0, i));
                assert(b.subrange(0, i) =~= front_b.subrange(0, i));
                assert(a[i] < b[i]);
            }
            if bytes_lt(a, b) {
                let i = choose|i: int|
                    0 <= i < a.len() && a.subrange(0, i) == b.subrange(0, i) && #[trigger] a[i]
                        < b[i];
                if i == last {
                    assert(front_a =~= a.subrange(0, i));
                    assert(front_b =~= b.subrange(0, i));
                } else {
                    assert(front_a.subrange(0, i) =~= a.subrange(0, i));
                    assert(front_b.subrange(0, i) =~= b.subrange(0, i));
                    assert(front_a[i] == a[i] && front_b[i] == b[i]);
                }
            }
        }
    }
}

/// The pair that stands for a digest tells the digest: two digests have
/// the same pair only if they are the same, and the pairs come in the
/// order of the digests as byte strings.
pub proof fn law_digest_key_faithful(a: Seq<u8>, b: Seq<u8>)
    requires
        a.len() == 32,
        b.len() == 32,
    ensures
        digest_key(a) == digest_key(b) <==> a == b,
        key_lt(digest_key(a), digest_key(b)) <==> bytes_lt(a, b),
{
    let (a_high, a_low) = (a.subrange(0, 16), a.subrange(16, 32));
    let (b_high, b_low) = (b.subrange(0, 16), b.subrange(16, 32));
    lemma_be_value_bound(a_high);
    lemma_be_value_bound(a_low);
    lemma_be_value_bound(b_high);
    lemma_be_value_bound(b_low);
    lemma_radix_16();
    lemma_be_value_order(a_high, b_high);
    lemma_be_value_order(a_low, b_low);
    assert(a =~= a_high + a_low);
    assert(b =~= b_high + b_low);
    if bytes_lt(a_high, b_high) {
        let i = choose|i: int|
            0 <= i < a_high.len() && a_high.subrange(0, i) == b_high.subrange(0, i)
                && #[trigger] a_high[i] < b_high[i];
        assert(a.subrange(0, i) =~= a_high.subrange(0, i));
        assert(b.subrange(0, i) =~= b_high.subrange(0, i));
        assert(a[i] < b[i]);
    }
    if a_high == b_high && bytes_lt(a_low, b_low) {
        let i = choose|i: int|
            0 <= i < a_low.len() && a_low.subrange(0, i) == b_low.subrange(0, i)
                && #[trigger] a_low[i] < b_low[i];
        assert(a.subrange(0, 16 + i) =~= a_high + a_low.subrange(0, i));
        assert(b.subrange(0, 16 + i) =~= b_high + b_low.subrange(0, i));
        assert(a[16 + i] < b[16 + i]);
    }
    if bytes_lt(a, b) {
        let i = choose|i: int|
            0 <= i < a.len() && a.subrange(0, i) == b.subrange(0, i) && #[trigger] a[i] < b[i];
        if i < 16 {
            assert(a_high.subrange(0, i) =~= a.subrange(0, i));
            assert(b_high.subrange(0, i) =~= b.subrange(0, i));
            assert(a_high[i] < b_high[i]);
        } else {
            assert(a_high =~= a.subrange(0, i).subrange(0, 16));
            assert(b_high =~= b.subrange(0, i).subrange(0, 16));
            assert(a_low.subrange(0, i - 16) =~= a.subrange(0, i).subrange(16, i));
            assert(b_low.subrange(0, i - 16) =~= b.subrange(0, i).subrange(16, i));
            assert(a_low[i - 16] < b_low[i - 16]);
        }
    }
}

/// Reads 16 bytes of `digest` from `start` on as one number.
fn read_half(digest: &[u8; 32], start: usize) -> (half: u128)
    requires
        start == 0 || start == 16,
    ensures
        half == be_value(digest@.subrange(start as int, start + 16)),
{
    let mut half: u128 = 0;
    let mut i: usize = 0;
    while i < 16
        invariant
            start == 0 || start == 16,
            i <= 16,
            half == be_value(digest@.subrange(start as int, start + i)),
        decreases 16 - i,
    {
        proof {
            let before = digest@.subrange(start as int, start + i);
            let after = digest@.subrange(start as int, start + i + 1);
            assert(after.drop_last() =~= before);
            lemma_be_value_bound(before);
            lemma_be_value_bound(after);
            lemma_radix_monotonic((i + 1) as nat, 16);
            lemma_radix_16();
        }
        half = half * 256 + digest[start + i] as u128;
        i = i + 1;
    }
    half
}

/// The pair that stands for `digest`.
pub fn key_of_digest(digest: &[u8; 32]) -> (key: CorespaceHash)
    ensures
        key == digest_key(digest@),
{
    proof {
        lemma_be_value_bound(digest@.subrange(0, 16));
        lemma_be_value_bound(digest@.subrange(16, 32));
        lemma_radix_16();
    }
    (read_half(digest, 0), read_half(digest, 16))
}

/// Writes out what is hashed of `corespace` at `level`.
pub fn hash_input_bytes(corespace: &Vec<Core>, level: GameLevel) -> (data: Vec<u8>)
    ensures
        data@ == hash_input(corespace@, level),
{
    let mut data: Vec<u8> = Vec::new();
    let mut i: usize = 0;
    match level {
        GameLevel::Level1 => {
            while i < corespace.len()
                invariant
                    i <= corespace.len(),
                    data@.len() == i,
                    forall|j: int|
                        0 <= j < i ==> data@[j] == hash_input(corespace@, GameLevel::Level1)[j],
                decreases corespace.len() - i,
            {
                if corespace[i].para_id.is_some() {
                    data.push(1u8);
                } else {
                    data.push(0u8);
                }
                i = i + 1;
            }
            assert(data@ =~= hash_input(corespace@, level));
        },
        GameLevel::Level2 => {
            while i < corespace.len()
                invariant
                    i <= corespace.len(),
                    data@.len() == 4 * i,
                    forall|j: int|
                        0 <= j < 4 * i ==> data@[j] == le_byte(
                            occupant(corespace@[j / 4]),
                            j % 4,
                        ),
                decreases corespace.len() - i,
            {
                let v: u32 = match corespace[i].para_id {
                    Some(id) => id,
                    None => 0,
                };
                data.push((v % 256) as u8);
                data.push(((v / 256) % 256) as u8);
                data.push(((v / 65536) % 256) as u8);
                data.push((v / 16777216) as u8);
                i = i + 1;
            }
            assert(data@ =~= hash_input(corespace@, level));
        },
    }
    data
}

/// Hashes `corespace` as `level` asks.
pub fn corespace_hash_of(corespace: &Vec<Core>, level: GameLevel) -> (key: CorespaceHash)
    ensures
        key == corespace_key(corespace@, level),
{
    let data = hash_input_bytes(corespace, level);
    let digest = blake2_256(data.as_slice());
    key_of_digest(&digest)
}

} // verus!
