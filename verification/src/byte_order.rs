//! Multi-byte integers as byte sequences, in either byte order.

use vstd::prelude::*;

verus! {

/// The order in which the bytes of a multi-byte integer lie in memory.
#[derive(Clone, Copy, Debug, PartialEq, Eq, Structural)]
pub enum ByteOrder {
    /// Least significant byte first.
    Little,
    /// Most significant byte first.
    Big,
}

/// The two bytes of `x`, least significant first.
pub open spec fn u16_le_bytes(x: u16) -> Seq<u8> {
    seq![(x % 256) as u8, (x / 256) as u8]
}

/// The four bytes of `x`, least significant first.
pub open spec fn u32_le_bytes(x: u32) -> Seq<u8> {
    seq![
        (x % 256) as u8,
        (x / 0x100 % 256) as u8,
        (x / 0x1_0000 % 256) as u8,
        (x / 0x100_0000) as u8,
    ]
}

/// The eight bytes of `x`, least significant first.
pub open spec fn u64_le_bytes(x: u64) -> Seq<u8> {
    seq![
        (x % 256) as u8,
        (x / 0x100 % 256) as u8,
        (x / 0x1_0000 % 256) as u8,
        (x / 0x100_0000 % 256) as u8,
        (x / 0x1_0000_0000 % 256) as u8,
        (x / 0x100_0000_0000 % 256) as u8,
        (x / 0x1_0000_0000_0000 % 256) as u8,
        (x / 0x100_0000_0000_0000) as u8,
    ]
}

/// `bytes` as written, or back to front.
pub open spec fn in_order(order: ByteOrder, bytes: Seq<u8>) -> Seq<u8> {
    match order {
        ByteOrder::Little => bytes,
        ByteOrder::Big => bytes.reverse(),
    }
}

/// The bytes of `x` in the given order.
pub open spec fn u16_bytes(order: ByteOrder, x: u16) -> Seq<u8> {
    in_order(order, u16_le_bytes(x))
}

/// The bytes of `x` in the given order.
pub open spec fn u32_bytes(order: ByteOrder, x: u32) -> Seq<u8> {
    in_order(order, u32_le_bytes(x))
}

/// The bytes of `x` in the given order.
pub open spec fn u64_bytes(order: ByteOrder, x: u64) -> Seq<u8> {
    in_order(order, u64_le_bytes(x))
}

/// The number whose two bytes, least significant first, are `bytes`.
pub open spec fn u16_le_value(bytes: Seq<u8>) -> u16
    recommends
        bytes.len() == 2,
{
    (bytes[0] + 0x100 * bytes[1]) as u16
}

/// The number whose eight bytes, least significant first, are `bytes`.
pub open spec fn u64_le_value(bytes: Seq<u8>) -> u64
    recommends
        bytes.len() == 8,
{
    (bytes[0] + 0x100 * bytes[1] + 0x1_0000 * bytes[2] + 0x100_0000 * bytes[3] + 0x1_0000_0000
        * bytes[4] + 0x100_0000_0000 * bytes[5] + 0x1_0000_0000_0000 * bytes[6]
        + 0x100_0000_0000_0000 * bytes[7]) as u64
}

/// The number whose two bytes in the given order are `bytes`.
pub open spec fn u16_value(order: ByteOrder, bytes: Seq<u8>) -> u16
    recommends
        bytes.len() == 2,
{
    u16_le_value(in_order(order, bytes))
}

/// The number whose eight bytes in the given order are `bytes`.
pub open spec fn u64_value(order: ByteOrder, bytes: Seq<u8>) -> u64
    recommends
        bytes.len() == 8,
{
    u64_le_value(in_order(order, bytes))
}

/// Encodes `x` in the given order.
pub fn u16_to_bytes(order: ByteOrder, x: u16) -> (out: [u8; 2])
    ensures
        out@ == u16_bytes(order, x),
{
    let b0 = (x % 256) as u8;
    let b1 = (x / 256) as u8;
    let out = match order {
        ByteOrder::Little => [b0, b1],
        ByteOrder::Big => [b1, b0],
    };
    assert(out@ =~= u16_bytes(order, x));
    out
}

/// Encodes `x` in the given order.
pub fn u32_to_bytes(order: ByteOrder, x: u32) -> (out: [u8; 4])
    ensures
        out@ == u32_bytes(order, x),
{
    let b0 = (x % 256) as u8;
    let b1 = (x / 0x100 % 256) as u8;
    let b2 = (x / 0x1_0000 % 256) as u8;
    let b3 = (x / 0x100_0000) as u8;
    let out = match order {
        ByteOrder::Little => [b0, b1, b2, b3],
        ByteOrder::Big => [b3, b2, b1, b0],
    };
    assert(out@ =~= u32_bytes(order, x));
    out
}

/// Encodes `x` in the given order.
pub fn u64_to_bytes(order: ByteOrder, x: u64) -> (out: [u8; 8])
    ensures
        out@ == u64_bytes(order, x),
{
    let b0 = (x % 256) as u8;
    let b1 = (x / 0x100 % 256) as u8;
    let b2 = (x / 0x1_0000 % 256) as u8;
    let b3 = (x / 0x100_0000 % 256) as u8;
    let b4 = (x / 0x1_0000_0000 % 256) as u8;
    let b5 = (x / 0x100_0000_0000 % 256) as u8;
    let b6 = (x / 0x1_0000_0000_0000 % 256) as u8;
    let b7 = (x / 0x100_0000_0000_0000) as u8;
    let out = match order {
        ByteOrder::Little => [b0, b1, b2, b3, b4, b5, b6, b7],
        ByteOrder::Big => [b7, b6, b5, b4, b3, b2, b1, b0],
    };
    assert(out@ =~= u64_bytes(order, x));
    out
}

/// Decodes the two bytes of `bytes` that start at `at`.
pub fn u16_from_bytes(order: ByteOrder, bytes: &[u8], at: usize) -> (x: u16)
    requires
        at + 2 <= bytes.len(),
    ensures
        x == u16_value(order, bytes@.subrange(at as int, at + 2)),
{
    let (lo, hi) = match order {
        ByteOrder::Little => (bytes[at], bytes[at + 1]),
        ByteOrder::Big => (bytes[at + 1], bytes[at]),
    };
    lo as u16 + 0x100 * (hi as u16)
}

/// Decodes the eight bytes of `bytes` that start at `at`.
pub fn u64_from_bytes(order: ByteOrder, bytes: &[u8], at: usize) -> (x: u64)
    requires
        at + 8 <= bytes.len(),
    ensures
        x == u64_value(order, bytes@.subrange(at as int, at + 8)),
{
    let le = match order {
        ByteOrder::Little => [
            bytes[at],
            bytes[at + 1],
            bytes[at + 2],
            bytes[at + 3],
            bytes[at + 4],
            bytes[at + 5],
            bytes[at + 6],
            bytes[at + 7],
        ],
        ByteOrder::Big => [
            bytes[at + 7],
            bytes[at + 6],
            bytes[at + 5],
            bytes[at + 4],
            bytes[at + 3],
            bytes[at + 2],
            bytes[at + 1],
            bytes[at],
        ],
    };
    assert(le@ =~= in_order(order, bytes@.subrange(at as int, at + 8)));
    le[0] as u64 + 0x100 * (le[1] as u64) + 0x1_0000 * (le[2] as u64) + 0x100_0000 * (le[3] as u64)
        + 0x1_0000_0000 * (le[4] as u64) + 0x100_0000_0000 * (le[5] as u64) + 0x1_0000_0000_0000
        * (le[6] as u64) + 0x100_0000_0000_0000 * (le[7] as u64)
}

/// The value whose layout in memory tells the two byte orders apart.
pub const ORDER_PROBE: u16 = 0x0102;

/// The byte order under which `bytes` is the layout of [`ORDER_PROBE`], if
/// there is one.
pub open spec fn probed_order(bytes: Seq<u8>) -> Option<ByteOrder> {
    if bytes == seq![0x02u8, 0x01u8] {
        Some(ByteOrder::Little)
    } else if bytes == seq![0x01u8, 0x02u8] {
        Some(ByteOrder::Big)
    } else {
        None
    }
}

/// The layout in memory of `x` on the machine that runs this code, as
/// `zerocopy::AsBytes::write_to` copies it out of the value. All that is
/// claimed is that it is one of the two byte orders.
#[verifier::external_body]
fn native_u16_bytes(x: u16) -> (bytes: [u8; 2])
    ensures
        bytes@ == u16_bytes(ByteOrder::Little, x) || bytes@ == u16_bytes(ByteOrder::Big, x),
{
    let mut bytes = [0u8; 2];
    let _ = zerocopy::AsBytes::write_to(&x, &mut bytes[..]);
    bytes
}

impl ByteOrder {
    /// Tells the byte order from the layout of [`ORDER_PROBE`].
    pub fn from_probe(bytes: [u8; 2]) -> (order: Option<ByteOrder>)
        ensures
            order == probed_order(bytes@),
    {
        if bytes[0] == 0x02 && bytes[1] == 0x01 {
            assert(bytes@ =~= seq![0x02u8, 0x01u8]);
            Some(ByteOrder::Little)
        } else if bytes[0] == 0x01 && bytes[1] == 0x02 {
            assert(bytes@ =~= seq![0x01u8, 0x02u8]);
            Some(ByteOrder::Big)
        } else {
            None
        }
    }

    /// The byte order of the machine that runs this code, found by laying
    /// out [`ORDER_PROBE`] in memory. Which of the two it returns is a fact
    /// about the machine, so nothing is promised of it.
    pub fn native() -> ByteOrder {
        let layout = native_u16_bytes(ORDER_PROBE);
        assert(u16_bytes(ByteOrder::Little, ORDER_PROBE) =~= seq![0x02u8, 0x01u8]);
        assert(u16_bytes(ByteOrder::Big, ORDER_PROBE) =~= seq![0x01u8, 0x02u8]);
        match ByteOrder::from_probe(layout) {
            Some(order) => order,
            None => {
                proof {
                    assert(false);
                }
                ByteOrder::Little
            },
        }
    }
}

/// Decoding undoes encoding, in either byte order.
pub proof fn lemma_u16_round_trip(order: ByteOrder, x: u16)
    ensures
        u16_bytes(order, x).len() == 2,
        u16_value(order, u16_bytes(order, x)) == x,
{
    assert(u16_le_bytes(x).reverse().reverse() =~= u16_le_bytes(x));
}

/// Decoding undoes encoding, in either byte order.
pub proof fn lemma_u64_round_trip(order: ByteOrder, x: u64)
    ensures
        u64_bytes(order, x).len() == 8,
        u64_value(order, u64_bytes(order, x)) == x,
{
    let le = u64_le_bytes(x);
    assert(le.reverse().reverse() =~= le);
    assert(in_order(order, u64_bytes(order, x)) == le);
    assert(x == (x % 256) + 0x100 * (x / 0x100 % 256) + 0x1_0000 * (x / 0x1_0000 % 256)
        + 0x100_0000 * (x / 0x100_0000 % 256) + 0x1_0000_0000 * (x / 0x1_0000_0000 % 256)
        + 0x100_0000_0000 * (x / 0x100_0000_0000 % 256) + 0x1_0000_0000_0000 * (x
        / 0x1_0000_0000_0000 % 256) + 0x100_0000_0000_0000 * (x / 0x100_0000_0000_0000))
        by (bit_vector);
}

} // verus!
