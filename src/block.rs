use vstd::prelude::*;

verus! {

/// Size in bytes of one cipher block.
pub const BLOCK_BYTES: usize = 16;

/// The word whose little-endian bytes are `b0, b1, b2, b3`.
pub open spec fn le_word(b0: u8, b1: u8, b2: u8, b3: u8) -> int {
    b0 as int + 0x100 * (b1 as int) + 0x1_0000 * (b2 as int) + 0x100_0000 * (b3 as int)
}

/// Byte `j` (0 = most significant) of `w` in big-endian order.
pub open spec fn be_byte(w: u32, j: int) -> u8 {
    ((w as int / pow256(3 - j)) % 0x100) as u8
}

pub open spec fn pow256(e: int) -> int {
    if e == 0 {
        1
    } else if e == 1 {
        0x100
    } else if e == 2 {
        0x1_0000
    } else {
        0x100_0000
    }
}

/// The four input words of a block, each read from four bytes in little-endian
/// order, as a load of `[u32; 4]` from memory gives them on this target.
pub open spec fn block_words(b: Seq<u8>) -> Seq<u32> {
    Seq::new(4, |i: int| le_word(b[4 * i], b[4 * i + 1], b[4 * i + 2], b[4 * i + 3]) as u32)
}

/// The bytes of a block of output words, each word in big-endian order: the
/// digest ports present their words byte-swapped relative to memory.
pub open spec fn digest_bytes(w: Seq<u32>) -> Seq<u8> {
    Seq::new(16, |i: int| be_byte(w[i / 4], i % 4))
}

fn le_word_exec(b0: u8, b1: u8, b2: u8, b3: u8) -> (r: u32)
    ensures
        r as int == le_word(b0, b1, b2, b3),
{
    (b0 as u32) + 0x100 * (b1 as u32) + 0x1_0000 * (b2 as u32) + 0x100_0000 * (b3 as u32)
}

/// Splits a 16-byte block into the four words fed to the engine's input port.
pub fn words_of_block(b: &[u8; 16]) -> (r: [u32; 4])
    ensures
        r@ == block_words(b@),
{
    let r = [
        le_word_exec(b[0], b[1], b[2], b[3]),
        le_word_exec(b[4], b[5], b[6], b[7]),
        le_word_exec(b[8], b[9], b[10], b[11]),
        le_word_exec(b[12], b[13], b[14], b[15]),
    ];
    assert(r@ =~= block_words(b@));
    r
}

fn be_bytes_exec(w: u32) -> (r: (u8, u8, u8, u8))
    ensures
        r.0 == be_byte(w, 0),
        r.1 == be_byte(w, 1),
        r.2 == be_byte(w, 2),
        r.3 == be_byte(w, 3),
{
    ((w / 0x100_0000) as u8, ((w / 0x1_0000) % 0x100) as u8, ((w / 0x100) % 0x100) as u8, (w % 0x100) as u8)
}

/// Lays out four words read from the digest ports as the 16 bytes of the
/// output block, each word in big-endian byte order.
pub fn block_of_digest(d: &[u32; 4]) -> (r: [u8; 16])
    ensures
        r@ == digest_bytes(d@),
{
    let a = be_bytes_exec(d[0]);
    let b = be_bytes_exec(d[1]);
    let c = be_bytes_exec(d[2]);
    let e = be_bytes_exec(d[3]);
    let r = [a.0, a.1, a.2, a.3, b.0, b.1, b.2, b.3, c.0, c.1, c.2, c.3, e.0, e.1, e.2, e.3];
    assert(r@ =~= digest_bytes(d@));
    r
}

} // verus!
