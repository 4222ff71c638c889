//! Fixed-width big-endian encoding of the integers that enter a commitment.

use vstd::prelude::*;

verus! {

/// The eight bytes of `x`, most significant first.
pub open spec fn be_bytes(x: u64) -> Seq<u8> {
    seq![
        (x / 0x0100_0000_0000_0000) as u8,
        (x / 0x0001_0000_0000_0000 % 0x100) as u8,
        (x / 0x0000_0100_0000_0000 % 0x100) as u8,
        (x / 0x0000_0001_0000_0000 % 0x100) as u8,
        (x / 0x0000_0000_0100_0000 % 0x100) as u8,
        (x / 0x0000_0000_0001_0000 % 0x100) as u8,
        (x / 0x0000_0000_0000_0100 % 0x100) as u8,
        (x % 0x100) as u8,
    ]
}

/// The number that `bytes` spells in base 256, most significant byte first.
pub open spec fn be_value(bytes: Seq<u8>) -> nat
    decreases bytes.len(),
{
    if bytes.len() == 0 {
        0
    } else {
        be_value(bytes.drop_last()) * 256 + bytes.last() as nat
    }
}

/// The bytes that are hashed to commit to `value` under `salt`: the encoding of
/// the value followed by the encoding of the salt.
pub open spec fn preimage(value: u64, salt: u64) -> Seq<u8> {
    be_bytes(value) + be_bytes(salt)
}

/// Appends the big-endian encoding of `x` to `buf`.
pub fn push_be_bytes(buf: &mut Vec<u8>, x: u64)
    ensures
        final(buf)@ == old(buf)@ + be_bytes(x),
{
    let b0: u8 = (x >> 56) as u8;
    let b1: u8 = ((x >> 48) & 0xff) as u8;
    let b2: u8 = ((x >> 40) & 0xff) as u8;
    let b3: u8 = ((x >> 32) & 0xff) as u8;
    let b4: u8 = ((x >> 24) & 0xff) as u8;
    let b5: u8 = ((x >> 16) & 0xff) as u8;
    let b6: u8 = ((x >> 8) & 0xff) as u8;
    let b7: u8 = (x & 0xff) as u8;
    assert(x >> 56 == x / 0x0100_0000_0000_0000 && x >> 56 < 0x100) by (bit_vector);
    assert((x >> 48) & 0xff == x / 0x0001_0000_0000_0000 % 0x100) by (bit_vector);
    assert((x >> 40) & 0xff == x / 0x0000_0100_0000_0000 % 0x100) by (bit_vector);
    assert((x >> 32) & 0xff == x / 0x0000_0001_0000_0000 % 0x100) by (bit_vector);
    assert((x >> 24) & 0xff == x / 0x0000_0000_0100_0000 % 0x100) by (bit_vector);
    assert((x >> 16) & 0xff == x / 0x0000_0000_0001_0000 % 0x100) by (bit_vector);
    assert((x >> 8) & 0xff == x / 0x0000_0000_0000_0100 % 0x100) by (bit_vector);
    assert(x & 0xff == x % 0x100) by (bit_vector);
    buf.push(b0);
    buf.push(b1);
    buf.push(b2);
    buf.push(b3);
    buf.push(b4);
    buf.push(b5);
    buf.push(b6);
    buf.push(b7);
}

/// Builds the bytes that are hashed to commit to `value` under `salt`.
pub fn commitment_input(value: u64, salt: u64) -> (input: Vec<u8>)
    ensures
        input@ == preimage(value, salt),
        input@.len() == 16,
{
    let mut input: Vec<u8> = Vec::with_capacity(16);
    push_be_bytes(&mut input, value);
    push_be_bytes(&mut input, salt);
    input
}

/// Whether two byte strings are the same: equally long and equal at every index.
pub fn bytes_equal(a: &[u8], b: &[u8]) -> (same: bool)
    ensures
        same == (a@ == b@),
{
    if a.len() != b.len() {
        return false;
    }
    let mut i: usize = 0;
    while i < a.len()
        invariant
            a@.len() == b@.len(),
            i <= a@.len(),
            forall|k: int| 0 <= k < i ==> a@[k] == b@[k],
        decreases a@.len() - i,
    {
        if a[i] != b[i] {
            return false;
        }
        i += 1;
    }
    assert(a@ =~= b@);
    true
}

/// The value of eight bytes, written out digit by digit.
proof fn lemma_be_value_of_eight(s: Seq<u8>)
    requires
        s.len() == 8,
    ensures
        be_value(s) == s[0] * 0x0100_0000_0000_0000 + s[1] * 0x0001_0000_0000_0000 + s[2]
            * 0x0000_0100_0000_0000 + s[3] * 0x0000_0001_0000_0000 + s[4] * 0x0000_0000_0100_0000
            + s[5] * 0x0000_0000_0001_0000 + s[6] * 0x0000_0000_0000_0100 + s[7],
{
    let s7 = s.drop_last();
    let s6 = s7.drop_last();
    let s5 = s6.drop_last();
    let s4 = s5.drop_last();
    let s3 = s4.drop_last();
    let s2 = s3.drop_last();
    let s1 = s2.drop_last();
    let s0 = s1.drop_last();
    assert(be_value(s0) == 0);
    assert(be_value(s1) == be_value(s0) * 256 + s[0]);
    assert(be_value(s2) == be_value(s1) * 256 + s[1]);
    assert(be_value(s3) == be_value(s2) * 256 + s[2]);
    assert(be_value(s4) == be_value(s3) * 256 + s[3]);
    assert(be_value(s5) == be_value(s4) * 256 + s[4]);
    assert(be_value(s6) == be_value(s5) * 256 + s[5]);
    assert(be_value(s7) == be_value(s6) * 256 + s[6]);
    assert(be_value(s) == be_value(s7) * 256 + s[7]);
}

/// A 64-bit number is the sum of its eight base-256 digits, each at its place.
proof fn lemma_digits_sum(x: u64)
    ensures
        x == (x / 0x0100_0000_0000_0000) * 0x0100_0000_0000_0000 + (x / 0x0001_0000_0000_0000
            % 0x100) * 0x0001_0000_0000_0000 + (x / 0x0000_0100_0000_0000 % 0x100)
            * 0x0000_0100_0000_0000 + (x / 0x0000_0001_0000_0000 % 0x100) * 0x0000_0001_0000_0000
            + (x / 0x0000_0000_0100_0000 % 0x100) * 0x0000_0000_0100_0000 + (x
            / 0x0000_0000_0001_0000 % 0x100) * 0x0000_0000_0001_0000 + (x / 0x0000_0000_0000_0100
            % 0x100) * 0x0000_0000_0000_0100 + x % 0x100,
        x / 0x0100_0000_0000_0000 < 0x100,
{
    let q1 = x / 0x0000_0000_0000_0100;
    let q2 = x / 0x0000_0000_0001_0000;
    let q3 = x / 0x0000_0000_0100_0000;
    let q4 = x / 0x0000_0001_0000_0000;
    let q5 = x / 0x0000_0100_0000_0000;
    let q6 = x / 0x0001_0000_0000_0000;
    let q7 = x / 0x0100_0000_0000_0000;
    assert(x == q1 * 0x100 + x % 0x100);
    assert(q2 == q1 / 0x100 && q1 == q2 * 0x100 + q1 % 0x100);
    assert(q3 == q2 / 0x100 && q2 == q3 * 0x100 + q2 % 0x100);
    assert(q4 == q3 / 0x100 && q3 == q4 * 0x100 + q3 % 0x100);
    assert(q5 == q4 / 0x100 && q4 == q5 * 0x100 + q4 % 0x100);
    assert(q6 == q5 / 0x100 && q5 == q6 * 0x100 + q5 % 0x100);
    assert(q7 == q6 / 0x100 && q6 == q7 * 0x100 + q6 % 0x100);
}

/// Encoding loses nothing: the eight bytes spell the number they came from.
pub proof fn lemma_be_bytes_round_trip(x: u64)
    ensures
        be_bytes(x).len() == 8,
        be_value(be_bytes(x)) == x,
{
    lemma_digits_sum(x);
    lemma_be_value_of_eight(be_bytes(x));
}

/// Two numbers with the same encoding are the same number.
pub proof fn lemma_be_bytes_injective(x: u64, y: u64)
    requires
        be_bytes(x) == be_bytes(y),
    ensures
        x == y,
{
    lemma_be_bytes_round_trip(x);
    lemma_be_bytes_round_trip(y);
}

/// The hashed bytes determine both the value and the salt.
pub proof fn lemma_preimage_injective(value1: u64, salt1: u64, value2: u64, salt2: u64)
    requires
        preimage(value1, salt1) == preimage(value2, salt2),
    ensures
        value1 == value2,
        salt1 == salt2,
{
    let left = preimage(value1, salt1);
    let right = preimage(value2, salt2);
    assert(left.subrange(0, 8) =~= be_bytes(value1));
    assert(right.subrange(0, 8) =~= be_bytes(value2));
    assert(left.subrange(8, 16) =~= be_bytes(salt1));
    assert(right.subrange(8, 16) =~= be_bytes(salt2));
    lemma_be_bytes_injective(value1, value2);
    lemma_be_bytes_injective(salt1, salt2);
}

} // verus!
