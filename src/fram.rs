use vstd::prelude::*;
use crate::bytes::{be_value, be_word, push_be_word, u32_from_be};

verus! {

/// Opcode that enables the next write.
pub const CMD_WREN: u8 = 0x06;

/// Opcode that reads memory.
pub const CMD_READ: u8 = 0x03;

/// Opcode that writes memory.
pub const CMD_WRITE: u8 = 0x02;

/// The three address bytes of the 18-bit address space: the top two bits, then the
/// middle and low bytes.
pub open spec fn address_bytes(addr: u32) -> Seq<u8> {
    seq![((addr / 65536) % 4) as u8, ((addr / 256) % 256) as u8, (addr % 256) as u8]
}

fn push_address(out: &mut Vec<u8>, addr: u32)
    ensures
        final(out)@ == old(out)@ + address_bytes(addr),
{
    out.push(((addr / 65536) % 4) as u8);
    out.push(((addr / 256) % 256) as u8);
    out.push((addr % 256) as u8);
    assert(final(out)@ =~= old(out)@ + address_bytes(addr));
}

/// The bytes sent, under one chip select, before four bytes are read back from `addr`.
pub fn read_u32_command(addr: u32) -> (r: Vec<u8>)
    ensures
        r@ == seq![CMD_READ] + address_bytes(addr),
{
    let mut out: Vec<u8> = vec![CMD_READ];
    push_address(&mut out, addr);
    assert(out@ =~= seq![CMD_READ] + address_bytes(addr));
    out
}

/// The bytes sent, under one chip select after a `CMD_WREN`, to store `value` at `addr`
/// big-endian.
pub fn write_u32_command(addr: u32, value: u32) -> (r: Vec<u8>)
    ensures
        r@ == seq![CMD_WRITE] + address_bytes(addr) + be_word(value),
{
    let mut out: Vec<u8> = vec![CMD_WRITE];
    push_address(&mut out, addr);
    push_be_word(&mut out, value);
    assert(out@ =~= seq![CMD_WRITE] + address_bytes(addr) + be_word(value));
    out
}

/// The value that four bytes read back from the memory hold (big-endian).
pub fn decode_u32(data: [u8; 4]) -> (r: u32)
    ensures
        r == be_value(data@[0], data@[1], data@[2], data@[3]),
{
    u32_from_be(data[0], data[1], data[2], data[3])
}

/// What a write stores reads back unchanged.
pub proof fn lemma_u32_round_trip(value: u32)
    ensures
        be_value(be_word(value)[0], be_word(value)[1], be_word(value)[2], be_word(value)[3])
            == value,
{
}

} // verus!
