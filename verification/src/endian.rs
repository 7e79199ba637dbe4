//! Little-endian encodings of integers.

use crate::size::Size;
use byteorder::{ByteOrder, LittleEndian};
use vstd::prelude::*;

verus! {

/// Byte number `i` of `value`, counted from the least significant one.
pub open spec fn byte_at(value: u64, i: int) -> u8 {
    ((value >> (8 * i)) & 0xff) as u8
}

/// The `width` low bytes of `value`, least significant first.
pub open spec fn le_bytes(value: u64, width: nat) -> Seq<u8> {
    Seq::new(width, |i: int| byte_at(value, i))
}

/// Calls `byteorder::LittleEndian::write_u16` on a buffer of two bytes and returns
/// the buffer. Assumed: the buffer then holds the two bytes of `value`, low byte first.
#[verifier::external_body]
fn write_u16(value: u16) -> (bytes: Vec<u8>)
    ensures
        bytes@ == le_bytes(value as u64, 2),
{
    let mut buffer = [0u8; 2];
    LittleEndian::write_u16(&mut buffer, value);
    buffer.to_vec()
}

/// Calls `byteorder::LittleEndian::write_u32` on a buffer of four bytes and returns
/// the buffer. Assumed: the buffer then holds the four bytes of `value`, lowest first.
#[verifier::external_body]
fn write_u32(value: u32) -> (bytes: Vec<u8>)
    ensures
        bytes@ == le_bytes(value as u64, 4),
{
    let mut buffer = [0u8; 4];
    LittleEndian::write_u32(&mut buffer, value);
    buffer.to_vec()
}

/// Calls `byteorder::LittleEndian::write_u64` on a buffer of eight bytes and returns
/// the buffer. Assumed: the buffer then holds the eight bytes of `value`, lowest first.
#[verifier::external_body]
fn write_u64(value: u64) -> (bytes: Vec<u8>)
    ensures
        bytes@ == le_bytes(value, 8),
{
    let mut buffer = [0u8; 8];
    LittleEndian::write_u64(&mut buffer, value);
    buffer.to_vec()
}

/// Cutting a value down to sixteen bits keeps its two low bytes.
proof fn lemma_low_two(value: u64)
    ensures
        le_bytes((value as u16) as u64, 2) == le_bytes(value, 2),
{
    let cut = (value as u16) as u64;
    assert((cut >> 0) & 0xff == (value >> 0) & 0xff) by (bit_vector)
        requires
            cut == (value as u16) as u64,
    ;
    assert((cut >> 8) & 0xff == (value >> 8) & 0xff) by (bit_vector)
        requires
            cut == (value as u16) as u64,
    ;
    assert(le_bytes(cut, 2) =~= le_bytes(value, 2));
}

/// Cutting a value down to thirty-two bits keeps its four low bytes.
proof fn lemma_low_four(value: u64)
    ensures
        le_bytes((value as u32) as u64, 4) == le_bytes(value, 4),
{
    let cut = (value as u32) as u64;
    assert((cut >> 0) & 0xff == (value >> 0) & 0xff) by (bit_vector)
        requires
            cut == (value as u32) as u64,
    ;
    assert((cut >> 8) & 0xff == (value >> 8) & 0xff) by (bit_vector)
        requires
            cut == (value as u32) as u64,
    ;
    assert((cut >> 16) & 0xff == (value >> 16) & 0xff) by (bit_vector)
        requires
            cut == (value as u32) as u64,
    ;
    assert((cut >> 24) & 0xff == (value >> 24) & 0xff) by (bit_vector)
        requires
            cut == (value as u32) as u64,
    ;
    assert(le_bytes(cut, 4) =~= le_bytes(value, 4));
}

/// Appends to `buffer` the low bytes of `value`, as many as `size` says, least
/// significant first: `value` cut down to that width, in little-endian order.
pub fn push_le(buffer: &mut Vec<u8>, value: u64, size: Size)
    requires
        size.encodable(),
    ensures
        final(buffer)@ == old(buffer)@ + le_bytes(value, size.bytes()),
{
    match size {
        Size::BYTE => {
            let low = value as u8;
            proof {
                assert(low == ((value >> 0) & 0xff) as u8) by (bit_vector)
                    requires
                        low == value as u8,
                ;
                assert(seq![low] =~= le_bytes(value, 1));
            }
            buffer.push(low);
            assert(buffer@ =~= old(buffer)@ + seq![low]);
        },
        Size::WORD => {
            let mut bytes = write_u16(value as u16);
            proof {
                lemma_low_two(value);
            }
            buffer.append(&mut bytes);
        },
        Size::DWORD => {
            let mut bytes = write_u32(value as u32);
            proof {
                lemma_low_four(value);
            }
            buffer.append(&mut bytes);
        },
        _ => {
            let mut bytes = write_u64(value);
            buffer.append(&mut bytes);
        },
    }
}

} // verus!
