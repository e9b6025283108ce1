//! The values of the schema's scalar fields.
//!
//! A field reaches a servlet as the bytes that the host copied out of the
//! activation's buffer, in the byte order of the machine. This module says
//! which number a run of bytes stands for in either order and computes it.

use vstd::prelude::*;

verus! {

/// The order of the bytes of a number in memory.
#[derive(Clone, Copy, Debug, PartialEq, Eq, Structural)]
pub enum ByteOrder {
    /// The least significant byte comes first.
    LittleEndian,
    /// The most significant byte comes first.
    BigEndian,
}

/// A 32-bit floating-point field, held as its bit pattern.
#[derive(Clone, Copy, Debug, PartialEq, Eq, Structural)]
pub struct Float32 {
    pub bits: u32,
}

/// A 64-bit floating-point field, held as its bit pattern.
#[derive(Clone, Copy, Debug, PartialEq, Eq, Structural)]
pub struct Float64 {
    pub bits: u64,
}

impl Default for Float32 {
    fn default() -> (r: Float32)
        ensures
            r.bits == 0,
    {
        Float32 { bits: 0 }
    }
}

impl Default for Float64 {
    fn default() -> (r: Float64)
        ensures
            r.bits == 0,
    {
        Float64 { bits: 0 }
    }
}

/// 256 to the power of `n`: the number of values that `n` bytes can take.
pub open spec fn pow256(n: nat) -> nat
    decreases n,
{
    if n == 0 {
        1
    } else {
        256 * pow256((n - 1) as nat)
    }
}

/// The number that `bytes` stand for with the least significant byte first.
pub open spec fn le_value(bytes: Seq<u8>) -> nat
    decreases bytes.len(),
{
    if bytes.len() == 0 {
        0
    } else {
        bytes[0] as nat + 256 * le_value(bytes.drop_first())
    }
}

/// The number that `bytes` stand for with the most significant byte first.
pub open spec fn be_value(bytes: Seq<u8>) -> nat
    decreases bytes.len(),
{
    if bytes.len() == 0 {
        0
    } else {
        256 * be_value(bytes.drop_last()) + bytes.last() as nat
    }
}

/// The unsigned number that `bytes` stand for in the given order.
pub open spec fn unsigned_value(bytes: Seq<u8>, order: ByteOrder) -> nat {
    match order {
        ByteOrder::LittleEndian => le_value(bytes),
        ByteOrder::BigEndian => be_value(bytes),
    }
}

/// The two's-complement number that `bytes` stand for in the given order.
pub open spec fn signed_value(bytes: Seq<u8>, order: ByteOrder) -> int {
    let unsigned = unsigned_value(bytes, order);
    if 2 * unsigned >= pow256(bytes.len()) {
        unsigned - pow256(bytes.len())
    } else {
        unsigned as int
    }
}

/// The powers of 256 up to the eighth.
pub proof fn lemma_pow256_values()
    ensures
        pow256(0) == 1,
        pow256(1) == 0x100,
        pow256(2) == 0x1_0000,
        pow256(3) == 0x100_0000,
        pow256(4) == 0x1_0000_0000,
        pow256(5) == 0x100_0000_0000,
        pow256(6) == 0x1_0000_0000_0000,
        pow256(7) == 0x100_0000_0000_0000,
        pow256(8) == 0x1_0000_0000_0000_0000,
{
    reveal_with_fuel(pow256, 9);
}

/// `u16::from_ne_bytes` of std: the number that two bytes stand for in the
/// byte order of the machine. Which order that is differs from machine to
/// machine, so nothing is claimed of the result.
#[verifier::external_body]
fn native_u16(bytes: [u8; 2]) -> (value: u16) {
    u16::from_ne_bytes(bytes)
}

/// The machine may read the bytes one and zero, in this order, as the
/// number `value`.
pub closed spec fn machine_reads_probe_as(value: u16) -> bool {
    exists|probe: [u8; 2]|
        probe@ == seq![1u8, 0u8] && #[trigger] call_ensures(native_u16, (probe,), value)
}

/// The byte order of a machine that reads the bytes one and zero, in this
/// order, as the number `value`: with the least significant byte first the
/// number is one.
pub open spec fn spec_order_of_probe(value: u16) -> ByteOrder {
    if value == 1 {
        ByteOrder::LittleEndian
    } else {
        ByteOrder::BigEndian
    }
}

/// See [`spec_order_of_probe`].
pub fn order_of_probe(value: u16) -> (order: ByteOrder)
    ensures
        order == spec_order_of_probe(value),
{
    if value == 1 {
        ByteOrder::LittleEndian
    } else {
        ByteOrder::BigEndian
    }
}

/// The byte order of the machine that this runs on: the order that goes with
/// the machine's reading of the bytes one and zero.
pub fn native_byte_order() -> (order: ByteOrder)
    ensures
        exists|value: u16| #[trigger]
            machine_reads_probe_as(value) && order == spec_order_of_probe(value),
{
    let probe: [u8; 2] = [1, 0];
    let call = native_u16;
    let value = call(probe);
    assert(probe@ =~= seq![1u8, 0u8]);
    assert(machine_reads_probe_as(value));
    order_of_probe(value)
}

/// The unsigned number that up to eight bytes stand for.
pub fn read_unsigned(bytes: &[u8], order: ByteOrder) -> (value: u64)
    requires
        bytes@.len() <= 8,
    ensures
        value == unsigned_value(bytes@, order),
        value < pow256(bytes@.len()),
{
    proof {
        lemma_pow256_values();
    }
    let n = bytes.len();
    let mut acc: u64 = 0;
    match order {
        ByteOrder::BigEndian => {
            let mut i: usize = 0;
            while i < n
                invariant
                    n == bytes@.len(),
                    n <= 8,
                    i <= n,
                    acc == be_value(bytes@.subrange(0, i as int)),
                    acc < pow256(i as nat),
                decreases n - i,
            {
                proof {
                    lemma_pow256_values();
                    let next = bytes@.subrange(0, i + 1);
                    assert(next.drop_last() =~= bytes@.subrange(0, i as int));
                    assert(next.last() == bytes@[i as int]);
                }
                acc = acc * 256 + bytes[i] as u64;
                i += 1;
            }
            assert(bytes@.subrange(0, n as int) =~= bytes@);
        },
        ByteOrder::LittleEndian => {
            let mut i: usize = n;
            while i > 0
                invariant
                    n == bytes@.len(),
                    n <= 8,
                    i <= n,
                    acc == le_value(bytes@.subrange(i as int, n as int)),
                    acc < pow256((n - i) as nat),
                decreases i,
            {
                proof {
                    lemma_pow256_values();
                    let next = bytes@.subrange(i - 1, n as int);
                    assert(next.drop_first() =~= bytes@.subrange(i as int, n as int));
                    assert(next[0] == bytes@[i - 1]);
                }
                i -= 1;
                acc = acc * 256 + bytes[i] as u64;
            }
            assert(bytes@.subrange(0, n as int) =~= bytes@);
        },
    }
    acc
}

/// The two's-complement number that one to eight bytes stand for.
pub fn read_signed(bytes: &[u8], order: ByteOrder) -> (value: i64)
    requires
        1 <= bytes@.len() <= 8,
    ensures
        value == signed_value(bytes@, order),
        -(pow256(bytes@.len()) as int) <= 2 * value < pow256(bytes@.len()),
{
    proof {
        lemma_pow256_values();
    }
    let n = bytes.len();
    let unsigned = read_unsigned(bytes, order);
    if n == 8 {
        if unsigned >= 0x8000_0000_0000_0000 {
            (unsigned - 0x8000_0000_0000_0000) as i64 + i64::MIN
        } else {
            unsigned as i64
        }
    } else {
        let span: i64 = if n == 1 {
            0x100
        } else if n == 2 {
            0x1_0000
        } else if n == 3 {
            0x100_0000
        } else if n == 4 {
            0x1_0000_0000
        } else if n == 5 {
            0x100_0000_0000
        } else if n == 6 {
            0x1_0000_0000_0000
        } else {
            0x100_0000_0000_0000
        };
        let plain = unsigned as i64;
        if 2 * plain >= span {
            plain - span
        } else {
            plain
        }
    }
}

} // verus!
