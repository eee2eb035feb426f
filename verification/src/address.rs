//! The destination address of a pixel.
//!
//! An address is a `u128` whose most significant sixteen bits are the first
//! group of its textual form. The upper 64 bits are the network prefix of the
//! canvas; the lower 64 bits hold, group by group, `x`, `y`, `(b << 8) | g`
//! and `(r << 8) | flag`.

use vstd::prelude::*;

verus! {

/// Network prefix of the canvas, `2001:610:1908:a000::/64`.
pub const CANVAS_PREFIX: u64 = 0x2001_0610_1908_a000;

/// Low byte of the last group: the kind of packet the canvas is told to expect.
pub const PAINT_FLAG: u8 = 0xff;

/// Two bytes as one 16-bit group, `hi` in the upper half.
pub open spec fn pack(hi: u8, lo: u8) -> u16 {
    ((hi as u16) << 8) | (lo as u16)
}

/// The address as a number: each field at its own weight, none overlapping.
pub open spec fn address_of(prefix: u64, flag: u8, x: u16, y: u16, r: u8, g: u8, b: u8) -> int {
    prefix as int * 0x1_0000_0000_0000_0000
        + x as int * 0x1_0000_0000_0000
        + y as int * 0x1_0000_0000
        + b as int * 0x100_0000
        + g as int * 0x1_0000
        + r as int * 0x100
        + flag as int
}

/// Group `i` of an address, counted from the most significant; 0 outside `0..8`.
pub open spec fn group(addr: int, i: int) -> int {
    if i == 0 {
        (addr / 0x1_0000_0000_0000_0000_0000_0000_0000) % 0x1_0000
    } else if i == 1 {
        (addr / 0x1_0000_0000_0000_0000_0000_0000) % 0x1_0000
    } else if i == 2 {
        (addr / 0x1_0000_0000_0000_0000_0000) % 0x1_0000
    } else if i == 3 {
        (addr / 0x1_0000_0000_0000_0000) % 0x1_0000
    } else if i == 4 {
        (addr / 0x1_0000_0000_0000) % 0x1_0000
    } else if i == 5 {
        (addr / 0x1_0000_0000) % 0x1_0000
    } else if i == 6 {
        (addr / 0x1_0000) % 0x1_0000
    } else if i == 7 {
        addr % 0x1_0000
    } else {
        0
    }
}

/// `pack` is positional: the high byte weighs 256.
pub proof fn lemma_pack(hi: u8, lo: u8)
    ensures
        pack(hi, lo) == hi as int * 0x100 + lo as int,
{
    assert((((hi as u16) << 8) | (lo as u16)) == (hi as u16) * 0x100 + (lo as u16)) by (bit_vector);
}

/// Group `i` of a 64-bit prefix, counted from the most significant; 0 outside `0..4`.
pub open spec fn prefix_group(prefix: u64, i: int) -> int {
    if i == 0 {
        (prefix as int / 0x1_0000_0000_0000) % 0x1_0000
    } else if i == 1 {
        (prefix as int / 0x1_0000_0000) % 0x1_0000
    } else if i == 2 {
        (prefix as int / 0x1_0000) % 0x1_0000
    } else if i == 3 {
        prefix as int % 0x1_0000
    } else {
        0
    }
}

proof fn lemma_split(a: int, w: int, hi: int, lo: int)
    requires
        0 < w,
        0 <= lo < w,
        a == hi * w + lo,
    ensures
        a / w == hi,
        a % w == lo,
{
    vstd::arithmetic::div_mod::lemma_fundamental_div_mod_converse(a, w, hi, lo);
}

/// Every field of a pixel occupies its own group of the address: the prefix
/// fills groups 0 to 3, then come `x`, `y`, `(b << 8) | g` and `(r << 8) | flag`.
pub proof fn lemma_groups(prefix: u64, flag: u8, x: u16, y: u16, r: u8, g: u8, b: u8)
    ensures
        0 <= address_of(prefix, flag, x, y, r, g, b) <= u128::MAX,
        forall|i: int| 0 <= i < 4 ==> #[trigger] group(address_of(prefix, flag, x, y, r, g, b), i)
            == prefix_group(prefix, i),
        group(address_of(prefix, flag, x, y, r, g, b), 4) == x,
        group(address_of(prefix, flag, x, y, r, g, b), 5) == y,
        group(address_of(prefix, flag, x, y, r, g, b), 6) == pack(b, g),
        group(address_of(prefix, flag, x, y, r, g, b), 7) == pack(r, flag),
{
    let a = address_of(prefix, flag, x, y, r, g, b);
    let p = prefix as int;
    let colour = b as int * 0x100_0000 + g as int * 0x1_0000 + r as int * 0x100 + flag as int;
    let low = x as int * 0x1_0000_0000_0000 + y as int * 0x1_0000_0000 + colour;
    lemma_pack(b, g);
    lemma_pack(r, flag);
    // the four groups below the prefix
    lemma_split(a, 0x1_0000, p * 0x1_0000_0000_0000 + x as int * 0x1_0000_0000 + y as int * 0x1_0000
        + b as int * 0x100 + g as int, r as int * 0x100 + flag as int);
    lemma_split(a / 0x1_0000, 0x1_0000, p * 0x1_0000_0000 + x as int * 0x1_0000 + y as int,
        b as int * 0x100 + g as int);
    lemma_split(a, 0x1_0000_0000, p * 0x1_0000_0000 + x as int * 0x1_0000 + y as int, colour);
    lemma_split(a / 0x1_0000_0000, 0x1_0000, p * 0x1_0000 + x as int, y as int);
    lemma_split(a, 0x1_0000_0000_0000, p * 0x1_0000 + x as int, y as int * 0x1_0000_0000 + colour);
    lemma_split(a / 0x1_0000_0000_0000, 0x1_0000, p, x as int);
    // the prefix
    lemma_split(a, 0x1_0000_0000_0000_0000, p, low);
    let p1 = p / 0x1_0000;
    let p2 = p / 0x1_0000_0000;
    let p3 = p / 0x1_0000_0000_0000;
    lemma_split(a, 0x1_0000_0000_0000_0000_0000, p1,
        (p % 0x1_0000) * 0x1_0000_0000_0000_0000 + low);
    lemma_split(a, 0x1_0000_0000_0000_0000_0000_0000, p2,
        (p % 0x1_0000_0000) * 0x1_0000_0000_0000_0000 + low);
    lemma_split(a, 0x1_0000_0000_0000_0000_0000_0000_0000, p3,
        (p % 0x1_0000_0000_0000) * 0x1_0000_0000_0000_0000 + low);
}

/// Encodes a pixel as a destination address under the given prefix and flag.
///
/// `x` and `y` are canvas coordinates: the caller has already added the
/// canvas offset.
pub fn encode(prefix: u64, flag: u8, x: u16, y: u16, r: u8, g: u8, b: u8) -> (addr: u128)
    ensures
        addr as int == address_of(prefix, flag, x, y, r, g, b),
        forall|i: int| 0 <= i < 4 ==> #[trigger] group(addr as int, i) == prefix_group(prefix, i),
        group(addr as int, 4) == x,
        group(addr as int, 5) == y,
        group(addr as int, 6) == pack(b, g),
        group(addr as int, 7) == pack(r, flag),
{
    proof {
        lemma_groups(prefix, flag, x, y, r, g, b);
    }
    let network: u128 = (prefix as u128) * 0x1_0000_0000_0000_0000;
    let position: u128 = (x as u128) * 0x1_0000_0000_0000 + (y as u128) * 0x1_0000_0000;
    let colour: u128 = (b as u128) * 0x100_0000 + (g as u128) * 0x1_0000 + (r as u128) * 0x100
        + (flag as u128);
    network + position + colour
}

/// Encodes a pixel as a destination address on the canvas.
pub fn craftaddr(x: u16, y: u16, r: u8, g: u8, b: u8) -> (addr: u128)
    ensures
        addr as int == address_of(CANVAS_PREFIX, PAINT_FLAG, x, y, r, g, b),
        group(addr as int, 0) == 0x2001,
        group(addr as int, 1) == 0x0610,
        group(addr as int, 2) == 0x1908,
        group(addr as int, 3) == 0xa000,
        group(addr as int, 4) == x,
        group(addr as int, 5) == y,
        group(addr as int, 6) == pack(b, g),
        group(addr as int, 7) == pack(r, PAINT_FLAG),
{
    encode(CANVAS_PREFIX, PAINT_FLAG, x, y, r, g, b)
}

/// Encoding has no collisions: under one prefix and flag, two pixels with the
/// same address agree in position and colour.
pub proof fn lemma_encode_injective(
    prefix: u64,
    flag: u8,
    x1: u16,
    y1: u16,
    r1: u8,
    g1: u8,
    b1: u8,
    x2: u16,
    y2: u16,
    r2: u8,
    g2: u8,
    b2: u8,
)
    requires
        address_of(prefix, flag, x1, y1, r1, g1, b1) == address_of(
            prefix,
            flag,
            x2,
            y2,
            r2,
            g2,
            b2,
        ),
    ensures
        x1 == x2,
        y1 == y2,
        r1 == r2,
        g1 == g2,
        b1 == b2,
{
    lemma_groups(prefix, flag, x1, y1, r1, g1, b1);
    lemma_groups(prefix, flag, x2, y2, r2, g2, b2);
    lemma_pack(b1, g1);
    lemma_pack(b2, g2);
    lemma_pack(r1, flag);
    lemma_pack(r2, flag);
}

/// Each input has its own group: between two pixels under one prefix and flag
/// the prefix groups never differ, and the group of `x`, of `y`, of blue and
/// green, and of red differs exactly where that input does.
pub proof fn lemma_own_group(
    prefix: u64,
    flag: u8,
    x1: u16,
    y1: u16,
    r1: u8,
    g1: u8,
    b1: u8,
    x2: u16,
    y2: u16,
    r2: u8,
    g2: u8,
    b2: u8,
)
    ensures
        forall|i: int|
            0 <= i < 4 ==> #[trigger] group(address_of(prefix, flag, x1, y1, r1, g1, b1), i)
                == group(address_of(prefix, flag, x2, y2, r2, g2, b2), i),
        group(address_of(prefix, flag, x1, y1, r1, g1, b1), 4) == group(
            address_of(prefix, flag, x2, y2, r2, g2, b2),
            4,
        ) <==> x1 == x2,
        group(address_of(prefix, flag, x1, y1, r1, g1, b1), 5) == group(
            address_of(prefix, flag, x2, y2, r2, g2, b2),
            5,
        ) <==> y1 == y2,
        group(address_of(prefix, flag, x1, y1, r1, g1, b1), 6) == group(
            address_of(prefix, flag, x2, y2, r2, g2, b2),
            6,
        ) <==> b1 == b2 && g1 == g2,
        group(address_of(prefix, flag, x1, y1, r1, g1, b1), 7) == group(
            address_of(prefix, flag, x2, y2, r2, g2, b2),
            7,
        ) <==> r1 == r2,
{
    lemma_groups(prefix, flag, x1, y1, r1, g1, b1);
    lemma_groups(prefix, flag, x2, y2, r2, g2, b2);
    lemma_pack(b1, g1);
    lemma_pack(b2, g2);
    lemma_pack(r1, flag);
    lemma_pack(r2, flag);
}

} // verus!
