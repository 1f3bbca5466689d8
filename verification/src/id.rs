//! The identifier that the chunks of one message share, and its reading as a
//! 64-bit integer in big-endian order.

use rand::RngCore;
use vstd::arithmetic::div_mod::lemma_div_denominator;
use vstd::prelude::*;

verus! {

/// The 64-bit integer whose big-endian representation is `bytes`: the first
/// byte is the most significant one.
pub open spec fn be_value(bytes: Seq<u8>) -> int
    decreases bytes.len(),
{
    if bytes.len() == 0 {
        0
    } else {
        256 * be_value(bytes.drop_last()) + bytes.last()
    }
}

/// The eight bytes that represent `value` in big-endian order.
pub open spec fn be_bytes(value: u64) -> Seq<u8> {
    Seq::new(8, |i: int| be_digit(value, i))
}

/// Byte `index` (0 is the most significant) of the big-endian form of `value`.
pub open spec fn be_digit(value: u64, index: int) -> u8 {
    ((value as int / pow256(7 - index)) % 256) as u8
}

/// 256 to the power `exponent`.
pub open spec fn pow256(exponent: int) -> int
    decreases exponent,
{
    if exponent <= 0 {
        1
    } else {
        256 * pow256(exponent - 1)
    }
}

/// Every power of 256 is positive.
pub proof fn lemma_pow256_positive(exponent: int)
    ensures
        pow256(exponent) > 0,
    decreases exponent,
{
    if exponent > 0 {
        lemma_pow256_positive(exponent - 1);
    }
}

/// The powers of 256 do not decrease with the exponent.
pub proof fn lemma_pow256_monotonic(low: int, high: int)
    requires
        low <= high,
    ensures
        pow256(low) <= pow256(high),
    decreases high,
{
    lemma_pow256_positive(low);
    if high > 0 && low < high {
        lemma_pow256_monotonic(low, high - 1);
    }
}

/// The powers of 256 that a 64-bit integer meets.
pub proof fn lemma_pow256_values()
    ensures
        pow256(0) == 1,
        pow256(1) == 0x100,
        pow256(2) == 0x1_0000,
        pow256(3) == 0x100_0000,
        pow256(4) == 0x1_0000_0000,
        pow256(5) == 0x100_0000_0000,
        pow256(6) == 0x1_0000_0000_0000,
        pow256(7) == 0x100_0000_0000_0000,
        pow256(8) == 0x1_0000_0000_0000_0000,
{
    reveal_with_fuel(pow256, 10);
}

/// The big-endian value of eight bytes, written out.
pub proof fn lemma_be_value_unfold(s: Seq<u8>)
    requires
        s.len() == 8,
    ensures
        be_value(s) == s[0] * 0x100_0000_0000_0000 + s[1] * 0x1_0000_0000_0000 + s[2]
            * 0x100_0000_0000 + s[3] * 0x1_0000_0000 + s[4] * 0x100_0000 + s[5] * 0x1_0000 + s[6]
            * 0x100 + s[7],
{
    let s7 = s.drop_last();
    let s6 = s7.drop_last();
    let s5 = s6.drop_last();
    let s4 = s5.drop_last();
    let s3 = s4.drop_last();
    let s2 = s3.drop_last();
    let s1 = s2.drop_last();
    let s0 = s1.drop_last();
    assert(be_value(s0) == 0);
    assert(be_value(s1) == s[0]);
    assert(be_value(s2) == 256 * be_value(s1) + s[1]);
    assert(be_value(s3) == 256 * be_value(s2) + s[2]);
    assert(be_value(s4) == 256 * be_value(s3) + s[3]);
    assert(be_value(s5) == 256 * be_value(s4) + s[4]);
    assert(be_value(s6) == 256 * be_value(s5) + s[5]);
    assert(be_value(s7) == 256 * be_value(s6) + s[6]);
    assert(be_value(s) == 256 * be_value(s7) + s[7]);
}

/// Reading back the big-endian form of an integer gives the integer.
pub proof fn lemma_be_value_of_be_bytes(value: u64)
    ensures
        be_value(be_bytes(value)) == value,
{
    let s = be_bytes(value);
    lemma_pow256_values();
    assert(be_value(s) == s[0] * 0x100_0000_0000_0000 + s[1] * 0x1_0000_0000_0000 + s[2]
        * 0x100_0000_0000 + s[3] * 0x1_0000_0000 + s[4] * 0x100_0000 + s[5] * 0x1_0000 + s[6]
        * 0x100 + s[7]) by {
        lemma_be_value_unfold(s);
    }
    assert(value == ((value / 0x100_0000_0000_0000) % 256) * 0x100_0000_0000_0000 + ((value
        / 0x1_0000_0000_0000) % 256) * 0x1_0000_0000_0000 + ((value / 0x100_0000_0000) % 256)
        * 0x100_0000_0000 + ((value / 0x1_0000_0000) % 256) * 0x1_0000_0000 + ((value
        / 0x100_0000) % 256) * 0x100_0000 + ((value / 0x1_0000) % 256) * 0x1_0000 + ((value
        / 0x100) % 256) * 0x100 + (value / 1) % 256) by (bit_vector);
}

/// Eight bytes are the big-endian form of the integer that they are read as.
pub proof fn lemma_be_bytes_of_be_value(bytes: Seq<u8>)
    requires
        bytes.len() == 8,
    ensures
        0 <= be_value(bytes) <= u64::MAX,
        be_bytes(be_value(bytes) as u64) == bytes,
{
    lemma_be_value_unfold(bytes);
    lemma_pow256_values();
    let (b0, b1, b2, b3, b4, b5, b6, b7) = (
        bytes[0],
        bytes[1],
        bytes[2],
        bytes[3],
        bytes[4],
        bytes[5],
        bytes[6],
        bytes[7],
    );
    let value: u64 = (b0 * 0x100_0000_0000_0000 + b1 * 0x1_0000_0000_0000 + b2 * 0x100_0000_0000
        + b3 * 0x1_0000_0000 + b4 * 0x100_0000 + b5 * 0x1_0000 + b6 * 0x100 + b7) as u64;
    assert(be_value(bytes) == value);
    assert(value == b0 * 0x100_0000_0000_0000 + b1 * 0x1_0000_0000_0000 + b2 * 0x100_0000_0000
        + b3 * 0x1_0000_0000 + b4 * 0x100_0000 + b5 * 0x1_0000 + b6 * 0x100 + b7 ==> (value
        / 0x100_0000_0000_0000) % 256 == b0 && (value / 0x1_0000_0000_0000) % 256 == b1 && (value
        / 0x100_0000_0000) % 256 == b2 && (value / 0x1_0000_0000) % 256 == b3 && (value
        / 0x100_0000) % 256 == b4 && (value / 0x1_0000) % 256 == b5 && (value / 0x100) % 256
        == b6 && (value / 1) % 256 == b7) by (bit_vector);
    assert(be_bytes(value) =~= bytes);
}

/// Eight bytes from the thread-local generator of `rand`, drawn with
/// `rand::thread_rng` and `RngCore::fill_bytes`. Which bytes come is left
/// open: nothing is claimed of them. The generator panics where the system
/// has no entropy to seed it with.
#[verifier::external_body]
fn random_bytes() -> (bytes: [u8; 8]) {
    let mut bytes = [0u8;8];
    rand::thread_rng().fill_bytes(&mut bytes);
    bytes
}

/// The identifier that all chunks of one message share: eight opaque bytes.
#[derive(Clone, Copy, Debug, PartialEq, Eq)]
pub struct ChunkedMessageId([u8; 8]);

impl View for ChunkedMessageId {
    type V = Seq<u8>;

    closed spec fn view(&self) -> Seq<u8> {
        self.0@
    }
}

impl ChunkedMessageId {
    /// An identifier has eight bytes.
    pub proof fn lemma_eight_bytes(self)
        ensures
            self@.len() == 8,
    {
    }

    /// The identifier made of the given bytes.
    pub fn from_bytes(bytes: [u8; 8]) -> (id: ChunkedMessageId)
        ensures
            id@ == bytes@,
    {
        ChunkedMessageId(bytes)
    }

    /// An identifier of random bytes.
    pub fn random() -> (id: ChunkedMessageId)
        ensures
            id@.len() == 8,
    {
        ChunkedMessageId::from_bytes(random_bytes())
    }

    /// The identifier whose bytes are the big-endian form of `id`.
    pub fn from_int(id: u64) -> (result: ChunkedMessageId)
        ensures
            result@ == be_bytes(id),
            be_value(result@) == id,
    {
        proof {
            lemma_be_value_of_be_bytes(id);
        }
        let mut bytes: [u8; 8] = [0;8];
        let mut rest: u64 = id;
        let mut i: usize = 0;
        while i < 8
            invariant
                i <= 8,
                rest as int == id as int / pow256(i as int),
                forall|j: int| 8 - i <= j < 8 ==> bytes@[j] == be_digit(id, j),
            decreases 8 - i,
        {
            let low: u8 = (rest & 0xff) as u8;
            proof {
                assert((rest & 0xff) as u8 == rest % 256) by (bit_vector);
                assert(rest >> 8 == rest / 256) by (bit_vector);
                lemma_pow256_positive(i as int);
                lemma_div_denominator(id as int, pow256(i as int), 256);
                assert(pow256(i as int) * 256 == pow256(i as int + 1));
            }
            bytes[7 - i] = low;
            rest = rest >> 8;
            i = i + 1;
        }
        assert(bytes@ =~= be_bytes(id));
        ChunkedMessageId(bytes)
    }

    /// The integer whose big-endian form the identifier's bytes are.
    pub fn to_int(&self) -> (value: u64)
        ensures
            value as int == be_value(self@),
    {
        let mut value: u64 = 0;
        let mut i: usize = 0;
        while i < 8
            invariant
                i <= 8,
                self.0@.len() == 8,
                value as int == be_value(self.0@.take(i as int)),
                (value as int) < pow256(i as int),
            decreases 8 - i,
        {
            let byte: u8 = self.0[i];
            proof {
                lemma_pow256_monotonic(i as int, 7);
                lemma_pow256_values();
                assert(value < 0x100_0000_0000_0000u64 ==> (value << 8 | byte as u64) == value * 256
                    + byte) by (bit_vector);
                assert(self.0@.take(i as int + 1).drop_last() =~= self.0@.take(i as int));
            }
            value = value << 8 | byte as u64;
            i = i + 1;
        }
        assert(self.0@.take(8) =~= self.0@);
        value
    }

    /// The bytes of the identifier, in wire order.
    pub fn as_bytes(&self) -> (bytes: &[u8; 8])
        ensures
            bytes@ == self@,
    {
        &self.0
    }
}

} // verus!
