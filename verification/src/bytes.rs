//! Buffer contents as the bytes that are uploaded to the GPU.

use vstd::prelude::*;

verus! {

/// The order in which a machine stores the bytes of a number.
#[derive(Clone, Copy, Debug, PartialEq, Eq, Structural)]
pub enum ByteOrder {
    Little,
    Big,
}

/// The two bytes of `value`, lowest first.
pub open spec fn u16_le_bytes(value: u16) -> Seq<u8> {
    seq![(value % 256) as u8, (value / 256) as u8]
}

/// The four bytes of `value`, lowest first.
pub open spec fn u32_le_bytes(value: u32) -> Seq<u8> {
    seq![
        (value % 256) as u8,
        (value / 256 % 256) as u8,
        (value / 65536 % 256) as u8,
        (value / 16777216) as u8,
    ]
}

/// The bytes of `value` as a machine of the given order stores them.
pub open spec fn u16_bytes(order: ByteOrder, value: u16) -> Seq<u8> {
    match order {
        ByteOrder::Little => u16_le_bytes(value),
        ByteOrder::Big => u16_le_bytes(value).reverse(),
    }
}

/// The bytes of `value` as a machine of the given order stores them.
pub open spec fn u32_bytes(order: ByteOrder, value: u32) -> Seq<u8> {
    match order {
        ByteOrder::Little => u32_le_bytes(value),
        ByteOrder::Big => u32_le_bytes(value).reverse(),
    }
}

/// The memory image of an array of 16-bit values: two bytes each, in array
/// order.
pub open spec fn u16_image(order: ByteOrder, values: Seq<u16>) -> Seq<u8> {
    Seq::new(2 * values.len(), |j: int| u16_bytes(order, values[j / 2])[j % 2])
}

/// The memory image of an array of 32-bit values: four bytes each, in array
/// order.
pub open spec fn u32_image(order: ByteOrder, values: Seq<u32>) -> Seq<u8> {
    Seq::new(4 * values.len(), |j: int| u32_bytes(order, values[j / 4])[j % 4])
}

/// `bytes` is the memory image of `values` on a little-endian or on a
/// big-endian machine.
pub open spec fn is_u16_image(values: Seq<u16>, bytes: Seq<u8>) -> bool {
    bytes == u16_image(ByteOrder::Little, values) || bytes == u16_image(ByteOrder::Big, values)
}

/// `bytes` is the memory image of `values` on a little-endian or on a
/// big-endian machine.
pub open spec fn is_u32_image(values: Seq<u32>, bytes: Seq<u8>) -> bool {
    bytes == u32_image(ByteOrder::Little, values) || bytes == u32_image(ByteOrder::Big, values)
}

/// `bytemuck::cast_slice` from `u16` to `u8`: the same memory seen as bytes.
/// Believed of it: the result is the array's image in this machine's byte
/// order, which is little-endian or big-endian. Bytes have alignment and size
/// one, so this cast neither fails nor panics.
#[verifier::external_body]
fn cast_u16_slice(values: &[u16]) -> (bytes: &[u8])
    ensures
        is_u16_image(values@, bytes@),
{
    bytemuck::cast_slice(values)
}

/// `bytemuck::cast_slice` from `u32` to `u8`: the same memory seen as bytes.
/// Believed of it: the result is the array's image in this machine's byte
/// order, which is little-endian or big-endian. Bytes have alignment and size
/// one, so this cast neither fails nor panics.
#[verifier::external_body]
fn cast_u32_slice(values: &[u32]) -> (bytes: &[u8])
    ensures
        is_u32_image(values@, bytes@),
{
    bytemuck::cast_slice(values)
}

/// The bytes of an index array as they lie in memory.
pub fn index_bytes(indices: &[u16]) -> (bytes: Vec<u8>)
    ensures
        is_u16_image(indices@, bytes@),
        bytes@.len() == 2 * indices@.len(),
{
    vstd::slice::slice_to_vec(cast_u16_slice(indices))
}

/// The bytes of an array of 32-bit words as they lie in memory.
pub fn word_bytes(words: &[u32]) -> (bytes: Vec<u8>)
    ensures
        is_u32_image(words@, bytes@),
        bytes@.len() == 4 * words@.len(),
{
    vstd::slice::slice_to_vec(cast_u32_slice(words))
}

} // verus!
