//! Big-endian fields at fixed offsets of a byte buffer.

use vstd::prelude::*;

verus! {

/// The two bytes of `value`, most significant first.
pub open spec fn be_u16(value: u16) -> Seq<u8> {
    seq![(value / 0x100) as u8, (value % 0x100) as u8]
}

/// The four bytes of `value`, most significant first.
pub open spec fn be_u32(value: u32) -> Seq<u8> {
    seq![
        (value / 0x100_0000) as u8,
        (value / 0x1_0000 % 0x100) as u8,
        (value / 0x100 % 0x100) as u8,
        (value % 0x100) as u8,
    ]
}

/// The eight bytes of `value`, most significant first.
pub open spec fn be_u64(value: u64) -> Seq<u8> {
    seq![
        (value / 0x100_0000_0000_0000) as u8,
        (value / 0x1_0000_0000_0000 % 0x100) as u8,
        (value / 0x100_0000_0000 % 0x100) as u8,
        (value / 0x1_0000_0000 % 0x100) as u8,
        (value / 0x100_0000 % 0x100) as u8,
        (value / 0x1_0000 % 0x100) as u8,
        (value / 0x100 % 0x100) as u8,
        (value % 0x100) as u8,
    ]
}

/// The number that the two bytes of `bytes` from `at` on spell, most
/// significant first.
pub open spec fn u16_at(bytes: Seq<u8>, at: int) -> u16 {
    (bytes[at] * 0x100 + bytes[at + 1]) as u16
}

/// The number that the four bytes of `bytes` from `at` on spell, most
/// significant first.
pub open spec fn u32_at(bytes: Seq<u8>, at: int) -> u32 {
    (bytes[at] * 0x100_0000 + bytes[at + 1] * 0x1_0000 + bytes[at + 2] * 0x100 + bytes[at
        + 3]) as u32
}

/// The number that the eight bytes of `bytes` from `at` on spell, most
/// significant first.
pub open spec fn u64_at(bytes: Seq<u8>, at: int) -> u64 {
    (bytes[at] * 0x100_0000_0000_0000 + bytes[at + 1] * 0x1_0000_0000_0000 + bytes[at + 2]
        * 0x100_0000_0000 + bytes[at + 3] * 0x1_0000_0000 + bytes[at + 4] * 0x100_0000 + bytes[at
        + 5] * 0x1_0000 + bytes[at + 6] * 0x100 + bytes[at + 7]) as u64
}

/// `bytes` with `part` written over it from `at` on.
pub open spec fn overwritten(bytes: Seq<u8>, at: int, part: Seq<u8>) -> Seq<u8> {
    Seq::new(
        bytes.len(),
        |i: int|
            if at <= i < at + part.len() {
                part[i - at]
            } else {
                bytes[i]
            },
    )
}

/// `count` zero bytes.
pub open spec fn zeros(count: nat) -> Seq<u8> {
    Seq::new(count, |i: int| 0u8)
}

/// Writes `part` over `buffer` from `at` on.
pub(crate) fn put_bytes(buffer: &mut [u8], at: usize, part: &[u8])
    requires
        at + part.len() <= old(buffer).len(),
    ensures
        final(buffer)@ == overwritten(old(buffer)@, at as int, part@),
{
    let mut i: usize = 0;
    while i < part.len()
        invariant
            i <= part@.len(),
            at + part.len() <= buffer.len(),
            buffer@.len() == old(buffer)@.len(),
            forall|k: int|
                0 <= k < buffer@.len() ==> buffer@[k] == if at <= k < at + i {
                    part@[k - at]
                } else {
                    old(buffer)@[k]
                },
        decreases part@.len() - i,
    {
        buffer[at + i] = part[i];
        i += 1;
    }
    assert(buffer@ =~= overwritten(old(buffer)@, at as int, part@));
}

/// Writes `value` over `buffer` at `at`.
pub(crate) fn put_u8(buffer: &mut [u8], at: usize, value: u8)
    requires
        at < old(buffer).len(),
    ensures
        final(buffer)@ == overwritten(old(buffer)@, at as int, seq![value]),
{
    buffer[at] = value;
    assert(buffer@ =~= overwritten(old(buffer)@, at as int, seq![value]));
}

/// Writes `value` over `buffer` from `at` on, most significant byte first.
pub(crate) fn put_u16(buffer: &mut [u8], at: usize, value: u16)
    requires
        at + 2 <= old(buffer).len(),
    ensures
        final(buffer)@ == overwritten(old(buffer)@, at as int, be_u16(value)),
{
    buffer[at] = (value / 0x100) as u8;
    buffer[at + 1] = (value % 0x100) as u8;
    assert(buffer@ =~= overwritten(old(buffer)@, at as int, be_u16(value)));
}

/// Writes `value` over `buffer` from `at` on, most significant byte first.
pub(crate) fn put_u32(buffer: &mut [u8], at: usize, value: u32)
    requires
        at + 4 <= old(buffer).len(),
    ensures
        final(buffer)@ == overwritten(old(buffer)@, at as int, be_u32(value)),
{
    buffer[at] = (value / 0x100_0000) as u8;
    buffer[at + 1] = (value / 0x1_0000 % 0x100) as u8;
    buffer[at + 2] = (value / 0x100 % 0x100) as u8;
    buffer[at + 3] = (value % 0x100) as u8;
    assert(buffer@ =~= overwritten(old(buffer)@, at as int, be_u32(value)));
}

/// Writes `value` over `buffer` from `at` on, most significant byte first.
pub(crate) fn put_u64(buffer: &mut [u8], at: usize, value: u64)
    requires
        at + 8 <= old(buffer).len(),
    ensures
        final(buffer)@ == overwritten(old(buffer)@, at as int, be_u64(value)),
{
    buffer[at] = (value / 0x100_0000_0000_0000) as u8;
    buffer[at + 1] = (value / 0x1_0000_0000_0000 % 0x100) as u8;
    buffer[at + 2] = (value / 0x100_0000_0000 % 0x100) as u8;
    buffer[at + 3] = (value / 0x1_0000_0000 % 0x100) as u8;
    buffer[at + 4] = (value / 0x100_0000 % 0x100) as u8;
    buffer[at + 5] = (value / 0x1_0000 % 0x100) as u8;
    buffer[at + 6] = (value / 0x100 % 0x100) as u8;
    buffer[at + 7] = (value % 0x100) as u8;
    assert(buffer@ =~= overwritten(old(buffer)@, at as int, be_u64(value)));
}

/// Reads the two bytes of `buffer` from `at` on, most significant first.
pub(crate) fn get_u16(buffer: &[u8], at: usize) -> (value: u16)
    requires
        at + 2 <= buffer.len(),
    ensures
        value == u16_at(buffer@, at as int),
{
    let high: u16 = buffer[at] as u16;
    let low: u16 = buffer[at + 1] as u16;
    high * 0x100 + low
}

/// Reads the four bytes of `buffer` from `at` on, most significant first.
pub(crate) fn get_u32(buffer: &[u8], at: usize) -> (value: u32)
    requires
        at + 4 <= buffer.len(),
    ensures
        value == u32_at(buffer@, at as int),
{
    let high: u32 = get_u16(buffer, at) as u32;
    let low: u32 = get_u16(buffer, at + 2) as u32;
    high * 0x1_0000 + low
}

/// Reads the eight bytes of `buffer` from `at` on, most significant first.
pub(crate) fn get_u64(buffer: &[u8], at: usize) -> (value: u64)
    requires
        at + 8 <= buffer.len(),
    ensures
        value == u64_at(buffer@, at as int),
{
    let high: u64 = get_u32(buffer, at) as u64;
    let low: u64 = get_u32(buffer, at + 4) as u64;
    high * 0x1_0000_0000 + low
}

/// Copies the 32 bytes of `buffer` from `at` on.
pub(crate) fn get_id(buffer: &[u8], at: usize) -> (id: [u8; 32])
    requires
        at + 32 <= buffer.len(),
    ensures
        id@ == buffer@.subrange(at as int, at + 32),
{
    let mut id: [u8; 32] = [0u8; 32];
    let mut i: usize = 0;
    while i < 32
        invariant
            i <= 32,
            at + 32 <= buffer.len(),
            forall|k: int| 0 <= k < i ==> id@[k] == buffer@[at + k],
        decreases 32 - i,
    {
        id[i] = buffer[at + i];
        i += 1;
    }
    assert(id@ =~= buffer@.subrange(at as int, at + 32));
    id
}

/// The bytes of a 16-bit number spell that number.
pub proof fn lemma_u16_round_trip(value: u16)
    ensures
        u16_at(be_u16(value), 0) == value,
{
}

/// The bytes of a 32-bit number spell that number.
pub proof fn lemma_u32_round_trip(value: u32)
    ensures
        u32_at(be_u32(value), 0) == value,
{
    assert(value == (value / 0x100_0000) * 0x100_0000 + (value / 0x1_0000 % 0x100) * 0x1_0000 + (
    value / 0x100 % 0x100) * 0x100 + value % 0x100) by (bit_vector);
}

/// The bytes of a 64-bit number spell that number.
pub proof fn lemma_u64_round_trip(value: u64)
    ensures
        u64_at(be_u64(value), 0) == value,
{
    assert(value == (value / 0x100_0000_0000_0000) * 0x100_0000_0000_0000 + (value
        / 0x1_0000_0000_0000 % 0x100) * 0x1_0000_0000_0000 + (value / 0x100_0000_0000 % 0x100)
        * 0x100_0000_0000 + (value / 0x1_0000_0000 % 0x100) * 0x1_0000_0000 + (value / 0x100_0000
        % 0x100) * 0x100_0000 + (value / 0x1_0000 % 0x100) * 0x1_0000 + (value / 0x100 % 0x100)
        * 0x100 + value % 0x100) by (bit_vector);
}

/// Where two bytes of a sequence are those of a 16-bit number, they are read
/// as that number.
pub proof fn lemma_u16_at(bytes: Seq<u8>, at: int, value: u16)
    requires
        0 <= at,
        at + 2 <= bytes.len(),
        bytes.subrange(at, at + 2) == be_u16(value),
    ensures
        u16_at(bytes, at) == value,
{
    let part = bytes.subrange(at, at + 2);
    lemma_u16_round_trip(value);
    assert(part[0] == bytes[at] && part[1] == bytes[at + 1]);
}

/// Where four bytes of a sequence are those of a 32-bit number, they are read
/// as that number.
pub proof fn lemma_u32_at(bytes: Seq<u8>, at: int, value: u32)
    requires
        0 <= at,
        at + 4 <= bytes.len(),
        bytes.subrange(at, at + 4) == be_u32(value),
    ensures
        u32_at(bytes, at) == value,
{
    let part = bytes.subrange(at, at + 4);
    lemma_u32_round_trip(value);
    assert(part[0] == bytes[at] && part[1] == bytes[at + 1] && part[2] == bytes[at + 2] && part[3]
        == bytes[at + 3]);
}

/// Where eight bytes of a sequence are those of a 64-bit number, they are
/// read as that number.
pub proof fn lemma_u64_at(bytes: Seq<u8>, at: int, value: u64)
    requires
        0 <= at,
        at + 8 <= bytes.len(),
        bytes.subrange(at, at + 8) == be_u64(value),
    ensures
        u64_at(bytes, at) == value,
{
    let part = bytes.subrange(at, at + 8);
    lemma_u64_round_trip(value);
    assert(part[0] == bytes[at] && part[1] == bytes[at + 1] && part[2] == bytes[at + 2] && part[3]
        == bytes[at + 3]);
    assert(part[4] == bytes[at + 4] && part[5] == bytes[at + 5] && part[6] == bytes[at + 6]
        && part[7] == bytes[at + 7]);
}

} // verus!
