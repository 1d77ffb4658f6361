use vstd::prelude::*;

verus! {

/// The four bytes of `w`, least significant first.
pub open spec fn le_word(w: u32) -> Seq<u8> {
    seq![
        (w % 256) as u8,
        ((w / 256) % 256) as u8,
        ((w / 65536) % 256) as u8,
        ((w / 16777216) % 256) as u8,
    ]
}

/// The four bytes of `w`, most significant first.
pub open spec fn be_word(w: u32) -> Seq<u8> {
    seq![
        ((w / 16777216) % 256) as u8,
        ((w / 65536) % 256) as u8,
        ((w / 256) % 256) as u8,
        (w % 256) as u8,
    ]
}

/// The words of `ws` laid out one after the other, each least significant byte first.
pub open spec fn le_words(ws: Seq<u32>) -> Seq<u8>
    decreases ws.len(),
{
    if ws.len() == 0 {
        Seq::empty()
    } else {
        le_words(ws.drop_last()) + le_word(ws.last())
    }
}

/// The integer that four bytes spell, most significant first.
pub open spec fn be_value(b0: u8, b1: u8, b2: u8, b3: u8) -> int {
    b0 * 16777216 + b1 * 65536 + b2 * 256 + b3
}

/// Appends the four little-endian bytes of `w` to `out`.
pub fn push_le_word(out: &mut Vec<u8>, w: u32)
    ensures
        final(out)@ == old(out)@ + le_word(w),
{
    out.push((w % 256) as u8);
    out.push(((w / 256) % 256) as u8);
    out.push(((w / 65536) % 256) as u8);
    out.push(((w / 16777216) % 256) as u8);
    assert(final(out)@ =~= old(out)@ + le_word(w));
}

/// Appends the four big-endian bytes of `w` to `out`.
pub fn push_be_word(out: &mut Vec<u8>, w: u32)
    ensures
        final(out)@ == old(out)@ + be_word(w),
{
    out.push(((w / 16777216) % 256) as u8);
    out.push(((w / 65536) % 256) as u8);
    out.push(((w / 256) % 256) as u8);
    out.push((w % 256) as u8);
    assert(final(out)@ =~= old(out)@ + be_word(w));
}

/// Reads a big-endian `u32` from four bytes.
pub fn u32_from_be(b0: u8, b1: u8, b2: u8, b3: u8) -> (r: u32)
    ensures
        r == be_value(b0, b1, b2, b3),
{
    (b0 as u32) * 16777216 + (b1 as u32) * 65536 + (b2 as u32) * 256 + (b3 as u32)
}

/// Reads a big-endian `u16` from two bytes.
pub fn u16_from_be(hi: u8, lo: u8) -> (r: u16)
    ensures
        r == hi * 256 + lo,
{
    (hi as u16) * 256 + (lo as u16)
}

/// The `i16` whose two's-complement bits are `hi` (high byte) and `lo` (low byte).
pub open spec fn i16_of(hi: u8, lo: u8) -> int {
    let u = hi * 256 + lo;
    if u >= 32768 { u - 65536 } else { u }
}

/// Reads a two's-complement `i16` from its high and low bytes.
pub fn i16_from_bytes(hi: u8, lo: u8) -> (r: i16)
    ensures
        r == i16_of(hi, lo),
{
    let u: i32 = (hi as i32) * 256 + (lo as i32);
    if u >= 32768 {
        (u - 65536) as i16
    } else {
        u as i16
    }
}

} // verus!
