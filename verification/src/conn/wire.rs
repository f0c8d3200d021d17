//! The cookie on the wire: sixteen bytes, big-endian, unsigned, nothing else.

use vstd::prelude::*;

verus! {

/// How many bytes a cookie takes on the wire.
pub const COOKIE_LEN: usize = 16;

/// The number a byte string spells when read as big-endian base-256 digits.
pub open spec fn be_value(bytes: Seq<u8>) -> nat
    decreases bytes.len(),
{
    if bytes.len() == 0 {
        0
    } else {
        be_value(bytes.drop_last()) * 256 + bytes.last() as nat
    }
}

/// The `len` low base-256 digits of `value`, most significant first.
pub open spec fn be_bytes(value: nat, len: nat) -> Seq<u8>
    decreases len,
{
    if len == 0 {
        Seq::empty()
    } else {
        be_bytes(value / 256, (len - 1) as nat).push((value % 256) as u8)
    }
}

/// 256 to the power `n`.
pub open spec fn pow256(n: nat) -> nat
    decreases n,
{
    if n == 0 {
        1
    } else {
        256 * pow256((n - 1) as nat)
    }
}

/// `be_bytes` yields exactly `len` bytes.
pub proof fn lemma_be_bytes_len(value: nat, len: nat)
    ensures
        be_bytes(value, len).len() == len,
    decreases len,
{
    if len > 0 {
        lemma_be_bytes_len(value / 256, (len - 1) as nat);
    }
}

/// A byte string of length `n` spells a number below 256 to the `n`.
pub proof fn lemma_be_value_bound(bytes: Seq<u8>)
    ensures
        be_value(bytes) < pow256(bytes.len()),
    decreases bytes.len(),
{
    if bytes.len() > 0 {
        lemma_be_value_bound(bytes.drop_last());
    }
}

/// Sixteen bytes hold exactly the range of a `u128`.
pub proof fn lemma_pow256_cookie()
    ensures
        pow256(16) == 0x1_0000_0000_0000_0000_0000_0000_0000_0000,
{
    reveal_with_fuel(pow256, 17);
}

/// Reading back what was written gives the number that was written, as long
/// as it fits in `len` digits.
pub proof fn lemma_value_of_bytes(value: nat, len: nat)
    requires
        value < pow256(len),
    ensures
        be_value(be_bytes(value, len)) == value,
    decreases len,
{
    if len > 0 {
        let rest = (len - 1) as nat;
        lemma_value_of_bytes(value / 256, rest);
        assert(be_bytes(value, len).drop_last() =~= be_bytes(value / 256, rest));
    }
}

/// Writing what was read gives back the very bytes that were read: no two
/// byte strings of one length spell the same number.
pub proof fn lemma_bytes_of_value(bytes: Seq<u8>)
    ensures
        be_bytes(be_value(bytes), bytes.len()) == bytes,
    decreases bytes.len(),
{
    if bytes.len() > 0 {
        lemma_bytes_of_value(bytes.drop_last());
    }
}

/// The cookie a client sends is the cookie its server reads: encoding a
/// cookie and decoding the result changes nothing.
pub proof fn lemma_cookie_round_trip(cookie: u128)
    ensures
        be_bytes(cookie as nat, 16).len() == 16,
        be_value(be_bytes(cookie as nat, 16)) == cookie,
{
    lemma_pow256_cookie();
    lemma_be_bytes_len(cookie as nat, 16);
    lemma_value_of_bytes(cookie as nat, 16);
}

/// The sixteen bytes that carry `cookie`, most significant byte first.
pub fn encode_cookie(cookie: u128) -> (bytes: [u8; 16])
    ensures
        bytes@ == be_bytes(cookie as nat, 16),
{
    let mut bytes = [0u8; 16];
    let mut rest: u128 = cookie;
    let mut i: usize = 16;
    while i > 0
        invariant
            i <= 16,
            bytes@.len() == 16,
            be_bytes(cookie as nat, 16) == be_bytes(rest as nat, i as nat) + bytes@.subrange(
                i as int,
                16,
            ),
        decreases i,
    {
        i = i - 1;
        bytes[i] = (rest % 256) as u8;
        rest = rest / 256;
    }
    bytes
}

/// The cookie that sixteen received bytes carry.
pub fn decode_cookie(bytes: &[u8; 16]) -> (cookie: u128)
    ensures
        cookie == be_value(bytes@),
{
    let mut cookie: u128 = 0;
    let mut i: usize = 0;
    while i < 16
        invariant
            i <= 16,
            bytes@.len() == 16,
            cookie == be_value(bytes@.take(i as int)),
        decreases 16 - i,
    {
        proof {
            assert(bytes@.take(i + 1).drop_last() =~= bytes@.take(i as int));
            lemma_be_value_bound(bytes@.take(i + 1));
            lemma_pow256_step(i as nat);
        }
        cookie = cookie * 256 + bytes[i] as u128;
        i = i + 1;
    }
    assert(bytes@.take(16) =~= bytes@);
    cookie
}

/// Every power of 256 up to the sixteenth fits a `u128` with room to spare
/// for the one after it.
proof fn lemma_pow256_step(i: nat)
    requires
        i < 16,
    ensures
        pow256(i + 1) <= 0x1_0000_0000_0000_0000_0000_0000_0000_0000,
    decreases 16 - i,
{
    if i == 15 {
        lemma_pow256_cookie();
    } else {
        lemma_pow256_step(i + 1);
    }
}

} // verus!
