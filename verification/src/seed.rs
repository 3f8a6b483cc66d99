//! Scalar seeds read from drawn bytes in the machine's own byte order.
use vstd::endian::{endianness, Endian};
use vstd::prelude::*;

verus! {

/// The number that `bytes` spell with the least significant byte first.
pub open spec fn le_value(bytes: Seq<u8>) -> nat
    decreases bytes.len(),
{
    if bytes.len() == 0 {
        0
    } else {
        bytes[0] as nat + 256 * le_value(bytes.drop_first())
    }
}

/// The number that `bytes` spell with the most significant byte first.
pub open spec fn be_value(bytes: Seq<u8>) -> nat
    decreases bytes.len(),
{
    if bytes.len() == 0 {
        0
    } else {
        256 * be_value(bytes.drop_last()) + bytes.last() as nat
    }
}

/// The number that `bytes` spell in the byte order of the machine that runs
/// the program.
pub open spec fn machine_value(bytes: Seq<u8>) -> nat {
    match endianness() {
        Endian::Little => le_value(bytes),
        Endian::Big => be_value(bytes),
    }
}

/// Whether `value` is what `bytes` spell in one of the two byte orders a
/// machine may have. The machine's own reading is one of them.
pub open spec fn native_reading(bytes: Seq<u8>, value: nat) -> bool {
    value == le_value(bytes) || value == be_value(bytes)
}

/// `u32::from_ne_bytes` reads the four bytes in the target's byte order: the
/// result is their value in the order of the machine that runs the program.
#[verifier::external_body]
pub(crate) fn u32_from_native(bytes: [u8; 4]) -> (r: u32)
    ensures
        r as nat == machine_value(bytes@),
{
    u32::from_ne_bytes(bytes)
}

/// `u64::from_ne_bytes` reads the eight bytes in the target's byte order: the
/// result is their value in the order of the machine that runs the program.
#[verifier::external_body]
pub(crate) fn u64_from_native(bytes: [u8; 8]) -> (r: u64)
    ensures
        r as nat == machine_value(bytes@),
{
    u64::from_ne_bytes(bytes)
}

/// The two readings of four bytes, written out digit by digit.
proof fn lemma_readings_of_four(bytes: Seq<u8>)
    requires
        bytes.len() == 4,
    ensures
        le_value(bytes) == bytes[0] + 0x100 * bytes[1] + 0x1_0000 * bytes[2] + 0x100_0000
            * bytes[3],
        be_value(bytes) == bytes[3] + 0x100 * bytes[2] + 0x1_0000 * bytes[1] + 0x100_0000
            * bytes[0],
{
    reveal_with_fuel(le_value, 5);
    reveal_with_fuel(be_value, 5);
}

/// The two readings of eight bytes, in terms of those of their halves.
proof fn lemma_readings_of_eight(bytes: Seq<u8>)
    requires
        bytes.len() == 8,
    ensures
        le_value(bytes) == le_value(bytes.subrange(0, 4)) + 0x1_0000_0000 * le_value(
            bytes.subrange(4, 8),
        ),
        be_value(bytes) == be_value(bytes.subrange(4, 8)) + 0x1_0000_0000 * be_value(
            bytes.subrange(0, 4),
        ),
{
    reveal_with_fuel(le_value, 9);
    reveal_with_fuel(be_value, 9);
    lemma_readings_of_four(bytes.subrange(0, 4));
    lemma_readings_of_four(bytes.subrange(4, 8));
}

/// Width of a 32-bit seed: whatever the byte order, four bytes read as a
/// number below 2^32, so the seed shows no more than 32 bits.
pub proof fn lemma_seed32_width(bytes: Seq<u8>, value: nat)
    requires
        bytes.len() == 4,
        native_reading(bytes, value),
    ensures
        value <= u32::MAX,
{
    lemma_readings_of_four(bytes);
}

/// Width of a 64-bit seed: whatever the byte order, eight bytes read as a
/// number below 2^64.
pub proof fn lemma_seed64_width(bytes: Seq<u8>, value: nat)
    requires
        bytes.len() == 8,
        native_reading(bytes, value),
    ensures
        value <= u64::MAX,
{
    lemma_readings_of_eight(bytes);
    lemma_readings_of_four(bytes.subrange(0, 4));
    lemma_readings_of_four(bytes.subrange(4, 8));
}

/// The four bytes that spell `seed` with the least significant byte first.
pub open spec fn le_bytes32(seed: u32) -> Seq<u8> {
    seq![
        (seed % 0x100) as u8,
        (seed / 0x100 % 0x100) as u8,
        (seed / 0x1_0000 % 0x100) as u8,
        (seed / 0x100_0000) as u8,
    ]
}

/// The eight bytes that spell `seed` with the least significant byte first.
pub open spec fn le_bytes64(seed: u64) -> Seq<u8> {
    le_bytes32((seed % 0x1_0000_0000) as u32) + le_bytes32((seed / 0x1_0000_0000) as u32)
}

/// Every 32-bit seed can be drawn: in either byte order it is the reading of
/// some four bytes, so no bit of it is fixed in advance.
pub proof fn lemma_seed32_onto(seed: u32)
    ensures
        le_bytes32(seed).len() == 4,
        le_value(le_bytes32(seed)) == seed,
        be_value(le_bytes32(seed).reverse()) == seed,
{
    let bytes = le_bytes32(seed);
    lemma_readings_of_four(bytes);
    lemma_readings_of_four(bytes.reverse());
}

/// Every 64-bit seed can be drawn: in either byte order it is the reading of
/// some eight bytes, so the seed has all of its 64 bits from the draw.
pub proof fn lemma_seed64_onto(seed: u64)
    ensures
        le_bytes64(seed).len() == 8,
        le_value(le_bytes64(seed)) == seed,
        be_value(le_bytes64(seed).reverse()) == seed,
{
    let low = (seed % 0x1_0000_0000) as u32;
    let high = (seed / 0x1_0000_0000) as u32;
    let bytes = le_bytes64(seed);
    lemma_seed32_onto(low);
    lemma_seed32_onto(high);
    lemma_readings_of_eight(bytes);
    assert(bytes.subrange(0, 4) =~= le_bytes32(low));
    assert(bytes.subrange(4, 8) =~= le_bytes32(high));
    let back = bytes.reverse();
    lemma_readings_of_eight(back);
    assert(back.subrange(0, 4) =~= le_bytes32(high).reverse());
    assert(back.subrange(4, 8) =~= le_bytes32(low).reverse());
}

/// The four bytes that spell `seed` in the machine's byte order.
pub open spec fn machine_bytes32(seed: u32) -> Seq<u8> {
    match endianness() {
        Endian::Little => le_bytes32(seed),
        Endian::Big => le_bytes32(seed).reverse(),
    }
}

/// The eight bytes that spell `seed` in the machine's byte order.
pub open spec fn machine_bytes64(seed: u64) -> Seq<u8> {
    match endianness() {
        Endian::Little => le_bytes64(seed),
        Endian::Big => le_bytes64(seed).reverse(),
    }
}

/// Read with the least significant byte first, byte strings of one length
/// that spell the same number are the same string.
pub proof fn lemma_le_value_one_to_one(a: Seq<u8>, b: Seq<u8>)
    requires
        a.len() == b.len(),
        le_value(a) == le_value(b),
    ensures
        a == b,
    decreases a.len(),
{
    if a.len() > 0 {
        let x = le_value(a.drop_first());
        let y = le_value(b.drop_first());
        assert(a[0] + 256 * x == b[0] + 256 * y);
        assert(x == y && a[0] == b[0]) by {
            if x < y {
                assert(256 * y >= 256 * x + 256);
            } else if y < x {
                assert(256 * x >= 256 * y + 256);
            }
        }
        lemma_le_value_one_to_one(a.drop_first(), b.drop_first());
        assert(a =~= seq![a[0]] + a.drop_first());
        assert(b =~= seq![b[0]] + b.drop_first());
    } else {
        assert(a =~= b);
    }
}

/// Read with the most significant byte first, byte strings of one length
/// that spell the same number are the same string.
pub proof fn lemma_be_value_one_to_one(a: Seq<u8>, b: Seq<u8>)
    requires
        a.len() == b.len(),
        be_value(a) == be_value(b),
    ensures
        a == b,
    decreases a.len(),
{
    if a.len() > 0 {
        let x = be_value(a.drop_last());
        let y = be_value(b.drop_last());
        assert(256 * x + a.last() == 256 * y + b.last());
        assert(x == y && a.last() == b.last()) by {
            if x < y {
                assert(256 * y >= 256 * x + 256);
            } else if y < x {
                assert(256 * x >= 256 * y + 256);
            }
        }
        lemma_be_value_one_to_one(a.drop_last(), b.drop_last());
        assert(a =~= a.drop_last().push(a.last()));
        assert(b =~= b.drop_last().push(b.last()));
    } else {
        assert(a =~= b);
    }
}

/// Different draws give different seeds: in the machine's byte order, byte
/// strings of one length that spell the same number are the same string.
pub proof fn lemma_machine_value_one_to_one(a: Seq<u8>, b: Seq<u8>)
    requires
        a.len() == b.len(),
        machine_value(a) == machine_value(b),
    ensures
        a == b,
{
    match endianness() {
        Endian::Little => lemma_le_value_one_to_one(a, b),
        Endian::Big => lemma_be_value_one_to_one(a, b),
    }
}

/// The machine's reading of drawn bytes is one of the two readings, so the
/// width laws hold of it.
pub proof fn lemma_machine_value_is_native(bytes: Seq<u8>)
    ensures
        native_reading(bytes, machine_value(bytes)),
        bytes.len() == 4 ==> machine_value(bytes) <= u32::MAX,
        bytes.len() == 8 ==> machine_value(bytes) <= u64::MAX,
{
    if bytes.len() == 4 {
        lemma_seed32_width(bytes, machine_value(bytes));
    }
    if bytes.len() == 8 {
        lemma_seed64_width(bytes, machine_value(bytes));
    }
}

/// A 32-bit seed and the four bytes it was read from determine each other:
/// the seed's bytes in the machine's order are the drawn bytes, and every
/// seed is the reading of its own bytes.
pub proof fn lemma_seed32_round_trip(bytes: Seq<u8>, seed: u32)
    ensures
        machine_bytes32(seed).len() == 4,
        machine_value(machine_bytes32(seed)) == seed,
        bytes.len() == 4 && machine_value(bytes) == seed ==> machine_bytes32(seed) == bytes,
{
    lemma_seed32_onto(seed);
    if bytes.len() == 4 && machine_value(bytes) == seed {
        lemma_machine_value_one_to_one(machine_bytes32(seed), bytes);
    }
}

/// A 64-bit seed and the eight bytes it was read from determine each other:
/// the seed's bytes in the machine's order are the drawn bytes, and every
/// seed is the reading of its own bytes, so all 64 bits come from the draw.
pub proof fn lemma_seed64_round_trip(bytes: Seq<u8>, seed: u64)
    ensures
        machine_bytes64(seed).len() == 8,
        machine_value(machine_bytes64(seed)) == seed,
        bytes.len() == 8 && machine_value(bytes) == seed ==> machine_bytes64(seed) == bytes,
{
    lemma_seed64_onto(seed);
    if bytes.len() == 8 && machine_value(bytes) == seed {
        lemma_machine_value_one_to_one(machine_bytes64(seed), bytes);
    }
}

} // verus!
