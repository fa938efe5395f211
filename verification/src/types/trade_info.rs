//! Trade records and the byte layout of strategy calls.
//!
//! A strategy is called with a four-byte selector followed by 32-byte
//! big-endian words, and answers with two such words: the bid fee and the ask
//! fee.

use crate::types::wad::{Wad, MAX_FEE};
use vstd::prelude::*;

verus! {

/// Selector of `afterInitialize(uint256,uint256)`.
pub const SELECTOR_AFTER_INITIALIZE: [u8; 4] = [0x83, 0x7a, 0xef, 0x47];

/// Selector of `afterSwap(TradeInfo)`.
pub const SELECTOR_AFTER_SWAP: [u8; 4] = [0xc2, 0xba, 0xbb, 0x57];

/// Selector of `getName()`.
pub const SELECTOR_GET_NAME: [u8; 4] = [0x17, 0xd7, 0xde, 0x7c];

/// `256^n`.
pub open spec fn pow256(n: nat) -> nat
    decreases n,
{
    if n == 0 {
        1
    } else {
        256 * pow256((n - 1) as nat)
    }
}

/// The number that a byte string spells in base 256, most significant byte
/// first.
pub open spec fn be_value(bytes: Seq<u8>) -> nat
    decreases bytes.len(),
{
    if bytes.len() == 0 {
        0
    } else {
        be_value(bytes.drop_last()) * 256 + bytes.last() as nat
    }
}

/// The `n` low base-256 digits of `v`, most significant first.
pub open spec fn be_bytes(v: nat, n: nat) -> Seq<u8> {
    Seq::new(n, |i: int| ((v / pow256((n - 1 - i) as nat)) % 256) as u8)
}

/// One 32-byte call word holding `v`.
pub open spec fn word(v: nat) -> Seq<u8> {
    be_bytes(v, 32)
}

/// A signed 128-bit value read as unsigned: a negative value counts from
/// `2^128` down.
pub open spec fn as_unsigned(v: i128) -> nat {
    if v >= 0 {
        v as nat
    } else {
        (v + 0x1_0000_0000_0000_0000_0000_0000_0000_0000) as nat
    }
}

/// A trade that a pool has just executed, as its strategy sees it.
#[derive(Debug, Clone, Copy)]
pub struct TradeInfo {
    /// True if the pool bought X (the trader sold X).
    pub is_buy: bool,
    /// Amount of X traded.
    pub amount_x: Wad,
    /// Amount of Y traded.
    pub amount_y: Wad,
    /// Simulation step.
    pub timestamp: u64,
    /// X reserves after the trade.
    pub reserve_x: Wad,
    /// Y reserves after the trade.
    pub reserve_y: Wad,
}

/// Call data of `afterInitialize`: the selector, then the two starting
/// reserves.
pub open spec fn after_initialize_calldata(initial_x: Wad, initial_y: Wad) -> Seq<u8> {
    SELECTOR_AFTER_INITIALIZE@ + word(as_unsigned(initial_x.0)) + word(as_unsigned(initial_y.0))
}

/// Call data of `afterSwap`: the selector, then the six fields of the trade,
/// one word each, the flag as 0 or 1.
pub open spec fn after_swap_calldata(trade: TradeInfo) -> Seq<u8> {
    SELECTOR_AFTER_SWAP@ + word(
        if trade.is_buy {
            1
        } else {
            0
        },
    ) + word(as_unsigned(trade.amount_x.0)) + word(as_unsigned(trade.amount_y.0)) + word(
        trade.timestamp as nat,
    ) + word(as_unsigned(trade.reserve_x.0)) + word(as_unsigned(trade.reserve_y.0))
}

/// The fee pair that return data holds: its first two words, each at most
/// `MAX_FEE`. Shorter data, or a larger word, holds none.
pub open spec fn fee_pair_of(data: Seq<u8>) -> Option<(Wad, Wad)> {
    if data.len() >= 64 && be_value(data.subrange(0, 32)) <= MAX_FEE && be_value(
        data.subrange(32, 64),
    ) <= MAX_FEE {
        Some(
            (
                Wad(be_value(data.subrange(0, 32)) as i128),
                Wad(be_value(data.subrange(32, 64)) as i128),
            ),
        )
    } else {
        None
    }
}

/// The 128-bit number that a word holds, if the word is 32 bytes long and
/// the number fits.
pub open spec fn u128_of_word(data: Seq<u8>) -> Option<u128> {
    if data.len() == 32 && be_value(data) <= u128::MAX {
        Some(be_value(data) as u128)
    } else {
        None
    }
}

/// The machine-size number that a word holds, if the word is 32 bytes long
/// and the number fits.
pub open spec fn usize_of_word(data: Seq<u8>) -> Option<usize> {
    if data.len() == 32 && be_value(data) <= usize::MAX {
        Some(be_value(data) as usize)
    } else {
        None
    }
}

/// Where a returned dynamic string lies in `data`: the first word gives the
/// place of the length word, and the string's bytes follow the length. Data
/// of less than two words, a place or a length that does not fit a machine
/// word, and data that ends before the string does hold none.
pub open spec fn string_bytes_of(data: Seq<u8>) -> Option<Seq<u8>> {
    if data.len() < 64 {
        None
    } else {
        match usize_of_word(data.subrange(0, 32)) {
            Some(offset) => if offset + 32 > data.len() {
                None
            } else {
                match usize_of_word(data.subrange(offset as int, offset + 32)) {
                    Some(length) => if offset + 32 + length > data.len() {
                        None
                    } else {
                        Some(data.subrange(offset + 32, offset + 32 + length))
                    },
                    None => None,
                }
            },
            None => None,
        }
    }
}

impl TradeInfo {
    /// Build a trade record.
    pub fn new(
        is_buy: bool,
        amount_x: Wad,
        amount_y: Wad,
        timestamp: u64,
        reserve_x: Wad,
        reserve_y: Wad,
    ) -> (r: TradeInfo)
        ensures
            r == (TradeInfo { is_buy, amount_x, amount_y, timestamp, reserve_x, reserve_y }),
    {
        TradeInfo { is_buy, amount_x, amount_y, timestamp, reserve_x, reserve_y }
    }

    /// Write the 196 bytes of the `afterSwap` call for this trade.
    pub fn encode_calldata(&self, buffer: &mut [u8; 196])
        ensures
            final(buffer)@ == after_swap_calldata(*self),
    {
        buffer[0] = SELECTOR_AFTER_SWAP[0];
        buffer[1] = SELECTOR_AFTER_SWAP[1];
        buffer[2] = SELECTOR_AFTER_SWAP[2];
        buffer[3] = SELECTOR_AFTER_SWAP[3];
        let flag: u128 = if self.is_buy { 1 } else { 0 };
        Self::encode_u256(buffer, 4, flag);
        Self::encode_u256(buffer, 36, unsigned_of(self.amount_x.raw()));
        Self::encode_u256(buffer, 68, unsigned_of(self.amount_y.raw()));
        Self::encode_u256(buffer, 100, self.timestamp as u128);
        Self::encode_u256(buffer, 132, unsigned_of(self.reserve_x.raw()));
        Self::encode_u256(buffer, 164, unsigned_of(self.reserve_y.raw()));
    }

    /// Write `value` as one word at `offset`, leaving the rest untouched.
    pub fn encode_u256<const N: usize>(buffer: &mut [u8; N], offset: usize, value: u128)
        requires
            offset + 32 <= N,
        ensures
            final(buffer)@ == old(buffer)@.subrange(0, offset as int) + word(value as nat) + old(
                buffer,
            )@.subrange(offset + 32, N as int),
    {
        let mut rem: u128 = value;
        let mut i: usize = 0;
        assert(pow256(0) == 1);
        while i < 32
            invariant
                i <= 32,
                offset + 32 <= N,
                rem == value as nat / pow256(i as nat),
                buffer@.len() == N,
                forall|k: int| 0 <= k < offset ==> buffer@[k] == old(buffer)@[k],
                forall|k: int| offset + 32 <= k < N ==> buffer@[k] == old(buffer)@[k],
                forall|k: int|
                    32 - i <= k < 32 ==> buffer@[offset + k] == word(value as nat)[k],
            decreases 32 - i,
        {
            proof {
                lemma_pow256_positive(i as nat);
                vstd::arithmetic::div_mod::lemma_div_denominator(
                    value as int,
                    pow256(i as nat) as int,
                    256,
                );
                assert(pow256((i + 1) as nat) == pow256(i as nat) * 256) by (nonlinear_arith)
                    requires
                        pow256((i + 1) as nat) == 256 * pow256(i as nat),
                ;
            }
            buffer[offset + 31 - i] = (rem % 256) as u8;
            rem = rem / 256;
            i = i + 1;
        }
        assert(buffer@ =~= old(buffer)@.subrange(0, offset as int) + word(value as nat) + old(
            buffer,
        )@.subrange(offset + 32, N as int));
    }
}

/// A signed value reinterpreted as unsigned.
fn unsigned_of(v: i128) -> (r: u128)
    ensures
        r == as_unsigned(v),
{
    if v >= 0 {
        v as u128
    } else {
        u128::MAX - ((-(v + 1)) as u128)
    }
}

/// Build the 68 bytes of the `afterInitialize` call.
pub fn encode_after_initialize(initial_x: Wad, initial_y: Wad) -> (r: [u8; 68])
    ensures
        r@ == after_initialize_calldata(initial_x, initial_y),
{
    let mut buffer: [u8; 68] = [0u8; 68];
    buffer[0] = SELECTOR_AFTER_INITIALIZE[0];
    buffer[1] = SELECTOR_AFTER_INITIALIZE[1];
    buffer[2] = SELECTOR_AFTER_INITIALIZE[2];
    buffer[3] = SELECTOR_AFTER_INITIALIZE[3];
    TradeInfo::encode_u256(&mut buffer, 4, unsigned_of(initial_x.raw()));
    TradeInfo::encode_u256(&mut buffer, 36, unsigned_of(initial_y.raw()));
    buffer
}

/// Read the fee pair that a strategy returned: two words, bid then ask, each
/// at most `MAX_FEE`. Anything else is refused.
pub fn decode_fee_pair(data: &[u8]) -> (r: Option<(Wad, Wad)>)
    ensures
        r == fee_pair_of(data@),
{
    if data.len() < 64 {
        return None;
    }
    let bid = decode_u256(vstd::slice::slice_subrange(data, 0, 32));
    let ask = decode_u256(vstd::slice::slice_subrange(data, 32, 64));
    match (bid, ask) {
        (Some(bid_fee), Some(ask_fee)) => {
            let max_fee: u128 = MAX_FEE as u128;
            if bid_fee > max_fee || ask_fee > max_fee {
                None
            } else {
                Some((Wad::new(bid_fee as i128), Wad::new(ask_fee as i128)))
            }
        },
        _ => None,
    }
}

/// Read one word as a 128-bit number. A word whose upper half is not zero
/// holds a larger number and is refused, as is data of another length.
pub fn decode_u256(data: &[u8]) -> (r: Option<u128>)
    ensures
        r == u128_of_word(data@),
{
    if data.len() != 32 {
        return None;
    }
    proof {
        lemma_be_value_split(data@, 16);
        lemma_pow256_16();
    }
    let mut i: usize = 0;
    while i < 16
        invariant
            i <= 16,
            data@.len() == 32,
            forall|k: int| 0 <= k < i ==> data@[k] == 0,
            be_value(data@) == be_value(data@.subrange(0, 16)) * pow256(16) + be_value(
                data@.subrange(16, 32),
            ),
            pow256(16) == 0x1_0000_0000_0000_0000_0000_0000_0000_0000,
        decreases 16 - i,
    {
        if data[i] != 0 {
            proof {
                lemma_be_value_nonzero(data@.subrange(0, 16), i as int);
                assert(be_value(data@) >= pow256(16)) by (nonlinear_arith)
                    requires
                        be_value(data@) == be_value(data@.subrange(0, 16)) * pow256(16)
                            + be_value(data@.subrange(16, 32)),
                        be_value(data@.subrange(0, 16)) >= 1,
                ;
            }
            return None;
        }
        i = i + 1;
    }
    proof {
        lemma_be_value_zero(data@.subrange(0, 16));
        assert(be_value(data@) == be_value(data@.subrange(16, 32))) by (nonlinear_arith)
            requires
                be_value(data@) == be_value(data@.subrange(0, 16)) * pow256(16) + be_value(
                    data@.subrange(16, 32),
                ),
                be_value(data@.subrange(0, 16)) == 0,
        ;
    }
    let mut acc: u128 = 0;
    let mut j: usize = 16;
    while j < 32
        invariant
            16 <= j <= 32,
            data@.len() == 32,
            acc == be_value(data@.subrange(16, j as int)),
            acc < pow256((j - 16) as nat),
            pow256(16) == 0x1_0000_0000_0000_0000_0000_0000_0000_0000,
        decreases 32 - j,
    {
        proof {
            let next = data@.subrange(16, j + 1);
            assert(next.drop_last() =~= data@.subrange(16, j as int));
            lemma_pow256_monotonic((j - 16 + 1) as nat, 16);
            assert(acc * 256 + 255 < pow256((j - 16 + 1) as nat)) by (nonlinear_arith)
                requires
                    acc + 1 <= pow256((j - 16) as nat),
                    pow256((j - 16 + 1) as nat) == 256 * pow256((j - 16) as nat),
            ;
        }
        acc = acc * 256 + data[j] as u128;
        j = j + 1;
    }
    Some(acc)
}

/// Read one word as a machine-size number; refused like `decode_u256`, and
/// where the number does not fit.
pub fn u256_to_usize(data: &[u8]) -> (r: Option<usize>)
    ensures
        r == usize_of_word(data@),
{
    match decode_u256(data) {
        Some(v) => {
            if v <= usize::MAX as u128 {
                Some(v as usize)
            } else {
                None
            }
        },
        None => None,
    }
}

/// Find the bytes of a returned dynamic string.
pub fn decode_string_bytes(data: &[u8]) -> (r: Option<Vec<u8>>)
    ensures
        match r {
            Some(bytes) => string_bytes_of(data@) == Some(bytes@),
            None => string_bytes_of(data@).is_none(),
        },
{
    if data.len() < 64 {
        return None;
    }
    let offset: usize = match u256_to_usize(vstd::slice::slice_subrange(data, 0, 32)) {
        Some(o) => o,
        None => {
            return None;
        },
    };
    if offset > data.len() - 32 {
        return None;
    }
    let start: usize = offset + 32;
    let length: usize = match u256_to_usize(vstd::slice::slice_subrange(data, offset, start)) {
        Some(l) => l,
        None => {
            return None;
        },
    };
    if length > data.len() - start {
        return None;
    }
    Some(vstd::slice::slice_to_vec(vstd::slice::slice_subrange(data, start, start + length)))
}

/// Powers of 256 are positive.
pub proof fn lemma_pow256_positive(n: nat)
    ensures
        pow256(n) > 0,
    decreases n,
{
    if n > 0 {
        lemma_pow256_positive((n - 1) as nat);
    }
}

/// Powers of 256 grow with the exponent.
pub proof fn lemma_pow256_monotonic(m: nat, n: nat)
    requires
        m <= n,
    ensures
        pow256(m) <= pow256(n),
    decreases n,
{
    if m < n {
        lemma_pow256_monotonic(m, (n - 1) as nat);
    }
}

/// `256^16` is `2^128`.
pub proof fn lemma_pow256_16()
    ensures
        pow256(16) == 0x1_0000_0000_0000_0000_0000_0000_0000_0000,
{
    reveal_with_fuel(pow256, 17);
}

/// A byte string splits at any place: the front counts `256^k` times, where
/// `k` bytes follow it.
pub proof fn lemma_be_value_split(bytes: Seq<u8>, at: int)
    requires
        0 <= at <= bytes.len(),
    ensures
        be_value(bytes) == be_value(bytes.subrange(0, at)) * pow256((bytes.len() - at) as nat)
            + be_value(bytes.subrange(at, bytes.len() as int)),
    decreases bytes.len(),
{
    let n = bytes.len() as int;
    if at == n {
        assert(bytes.subrange(0, at) =~= bytes);
        assert(be_value(bytes) * 1 == be_value(bytes)) by (nonlinear_arith);
    } else {
        let front = bytes.drop_last();
        lemma_be_value_split(front, at);
        assert(front.subrange(0, at) =~= bytes.subrange(0, at));
        assert(front.subrange(at, n - 1) =~= bytes.subrange(at, n).drop_last());
        let a = be_value(bytes.subrange(0, at));
        let p = pow256((n - 1 - at) as nat);
        let b = be_value(front.subrange(at, n - 1));
        assert((a * p + b) * 256 == a * (256 * p) + b * 256) by (nonlinear_arith);
    }
}

/// A byte string of zeros spells zero.
pub proof fn lemma_be_value_zero(bytes: Seq<u8>)
    requires
        forall|k: int| 0 <= k < bytes.len() ==> bytes[k] == 0,
    ensures
        be_value(bytes) == 0,
    decreases bytes.len(),
{
    if bytes.len() > 0 {
        lemma_be_value_zero(bytes.drop_last());
    }
}

/// A byte string with a byte that is not zero spells a positive number.
pub proof fn lemma_be_value_nonzero(bytes: Seq<u8>, at: int)
    requires
        0 <= at < bytes.len(),
        bytes[at] != 0,
    ensures
        be_value(bytes) >= 1,
    decreases bytes.len(),
{
    if at < bytes.len() - 1 {
        lemma_be_value_nonzero(bytes.drop_last(), at);
    }
}

/// Writing a number as `n` bytes and reading the bytes gives the number
/// back, where the number fits in `n` bytes.
pub proof fn lemma_be_round_trip(v: nat, n: nat)
    requires
        v < pow256(n),
    ensures
        be_bytes(v, n).len() == n,
        be_value(be_bytes(v, n)) == v,
    decreases n,
{
    if n > 0 {
        let s = be_bytes(v, n);
        let rest = be_bytes(v / 256, (n - 1) as nat);
        assert forall|i: int| 0 <= i < n - 1 implies s[i] == rest[i] by {
            let p = pow256((n - 2 - i) as nat);
            lemma_pow256_positive((n - 2 - i) as nat);
            vstd::arithmetic::div_mod::lemma_div_denominator(v as int, 256, p as int);
        }
        assert(s.drop_last() =~= rest);
        assert(v / 1 == v);
        lemma_be_round_trip(v / 256, (n - 1) as nat);
    }
}

/// A fee pair within the accepted range, written as two words, reads back
/// as itself.
pub proof fn lemma_fee_pair_round_trip(bid: Wad, ask: Wad)
    requires
        0 <= bid.0 <= MAX_FEE,
        0 <= ask.0 <= MAX_FEE,
    ensures
        fee_pair_of(word(bid.0 as nat) + word(ask.0 as nat)) == Some((bid, ask)),
{
    let data = word(bid.0 as nat) + word(ask.0 as nat);
    lemma_pow256_16();
    lemma_pow256_monotonic(16, 32);
    lemma_be_round_trip(bid.0 as nat, 32);
    lemma_be_round_trip(ask.0 as nat, 32);
    assert(data.subrange(0, 32) =~= word(bid.0 as nat));
    assert(data.subrange(32, 64) =~= word(ask.0 as nat));
}

} // verus!
