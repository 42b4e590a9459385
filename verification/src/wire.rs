//! Numbers as they stand in messages.

use vstd::prelude::*;

verus! {

/// The bytes of a 16-bit number, the low one first.
pub open spec fn u16_bytes(value: u16) -> Seq<u8> {
    seq![(value % 256) as u8, (value / 256) as u8]
}

/// The bytes of a 32-bit number, the low one first.
pub open spec fn u32_bytes(value: u32) -> Seq<u8> {
    seq![
        (value % 256) as u8,
        (value / 256 % 256) as u8,
        (value / 65536 % 256) as u8,
        (value / 16777216) as u8,
    ]
}

/// The bits of a signed 16-bit number as an unsigned one.
pub open spec fn u16_of(value: i16) -> u16 {
    if value < 0 {
        (value + 65536) as u16
    } else {
        value as u16
    }
}

/// The bits of a signed 32-bit number as an unsigned one.
pub open spec fn u32_of(value: i32) -> u32 {
    if value < 0 {
        (value + 4294967296) as u32
    } else {
        value as u32
    }
}

/// The signed 16-bit number of the same bits.
pub open spec fn i16_of(value: u16) -> i16 {
    if value < 32768 {
        value as i16
    } else {
        (value - 65536) as i16
    }
}

/// The signed 32-bit number of the same bits.
pub open spec fn i32_of(value: u32) -> i32 {
    if value < 2147483648 {
        value as i32
    } else {
        (value - 4294967296) as i32
    }
}

/// The 16-bit number whose low byte stands at `at`.
pub open spec fn u16_at(data: Seq<u8>, at: int) -> u16 {
    (data[at] + 256 * data[at + 1]) as u16
}

/// The 32-bit number whose low byte stands at `at`.
pub open spec fn u32_at(data: Seq<u8>, at: int) -> u32 {
    (data[at] + 256 * data[at + 1] + 65536 * data[at + 2] + 16777216 * data[at + 3]) as u32
}

/// Reads a 16-bit number, the low byte first.
pub fn get_u16(data: &Vec<u8>, at: usize) -> (value: u16)
    requires
        at + 2 <= data@.len(),
    ensures
        value == u16_at(data@, at as int),
{
    assert(data.len() <= usize::MAX);
    data[at] as u16 + 256 * data[at + 1] as u16
}

/// Reads a 32-bit number, the low byte first.
pub fn get_u32(data: &Vec<u8>, at: usize) -> (value: u32)
    requires
        at + 4 <= data@.len(),
    ensures
        value == u32_at(data@, at as int),
{
    assert(data.len() <= usize::MAX);
    data[at] as u32 + 256 * data[at + 1] as u32 + 65536 * data[at + 2] as u32 + 16777216
        * data[at + 3] as u32
}

/// Reads a signed 16-bit number, the low byte first.
pub fn get_i16(data: &Vec<u8>, at: usize) -> (value: i16)
    requires
        at + 2 <= data@.len(),
    ensures
        value == i16_of(u16_at(data@, at as int)),
{
    let bits: u16 = get_u16(data, at);
    if bits < 32768 {
        bits as i16
    } else {
        (bits as i32 - 65536) as i16
    }
}

/// Reads a signed 32-bit number, the low byte first.
pub fn get_i32(data: &Vec<u8>, at: usize) -> (value: i32)
    requires
        at + 4 <= data@.len(),
    ensures
        value == i32_of(u32_at(data@, at as int)),
{
    let bits: u32 = get_u32(data, at);
    if bits < 2147483648 {
        bits as i32
    } else {
        (bits as i64 - 4294967296) as i32
    }
}

/// Appends a 16-bit number, the low byte first.
pub fn push_u16(data: &mut Vec<u8>, value: u16)
    ensures
        final(data)@ == old(data)@ + u16_bytes(value),
{
    data.push((value % 256) as u8);
    data.push((value / 256) as u8);
    assert(data@ =~= old(data)@ + u16_bytes(value));
}

/// Appends a 32-bit number, the low byte first.
pub fn push_u32(data: &mut Vec<u8>, value: u32)
    ensures
        final(data)@ == old(data)@ + u32_bytes(value),
{
    data.push((value % 256) as u8);
    data.push((value / 256 % 256) as u8);
    data.push((value / 65536 % 256) as u8);
    data.push((value / 16777216) as u8);
    assert(data@ =~= old(data)@ + u32_bytes(value));
}

/// Appends a signed 16-bit number, the low byte first.
pub fn push_i16(data: &mut Vec<u8>, value: i16)
    ensures
        final(data)@ == old(data)@ + u16_bytes(u16_of(value)),
{
    let bits: u16 = if value < 0 {
        (value as i32 + 65536) as u16
    } else {
        value as u16
    };
    push_u16(data, bits);
}

/// Appends a signed 32-bit number, the low byte first.
pub fn push_i32(data: &mut Vec<u8>, value: i32)
    ensures
        final(data)@ == old(data)@ + u32_bytes(u32_of(value)),
{
    let bits: u32 = if value < 0 {
        (value as i64 + 4294967296) as u32
    } else {
        value as u32
    };
    push_u32(data, bits);
}

/// A number is read back as it was written.
pub proof fn law_u16_is_read_back(data: Seq<u8>, at: int, value: u16)
    requires
        0 <= at,
        at + 2 <= data.len(),
        data.subrange(at, at + 2) =~= u16_bytes(value),
    ensures
        u16_at(data, at) == value,
{
    let part = data.subrange(at, at + 2);
    assert(part[0] == data[at] && part[1] == data[at + 1]);
}

/// A number is read back as it was written.
pub proof fn law_u32_is_read_back(data: Seq<u8>, at: int, value: u32)
    requires
        0 <= at,
        at + 4 <= data.len(),
        data.subrange(at, at + 4) =~= u32_bytes(value),
    ensures
        u32_at(data, at) == value,
{
    let part = data.subrange(at, at + 4);
    assert(part[0] == data[at] && part[1] == data[at + 1] && part[2] == data[at + 2] && part[3]
        == data[at + 3]);
}

/// A signed number keeps its value through the unsigned one of the same bits.
pub proof fn law_signed_bits_are_kept(small: i16, large: i32)
    ensures
        i16_of(u16_of(small)) == small,
        i32_of(u32_of(large)) == large,
{
}

/// Numbers are written with their lowest byte first.
pub proof fn law_lowest_byte_comes_first(small: u16, large: u32)
    ensures
        u16_bytes(small).len() == 2,
        u16_bytes(small)[0] + 256 * u16_bytes(small)[1] == small,
        u32_bytes(large).len() == 4,
        u32_bytes(large)[0] + 256 * u32_bytes(large)[1] + 65536 * u32_bytes(large)[2] + 16777216
            * u32_bytes(large)[3] == large,
{
}

/// A negative number is written as the one that is a whole turn above it.
pub proof fn law_negative_numbers_go_round(small: i16, large: i32)
    ensures
        small >= 0 ==> u16_of(small) == small,
        small < 0 ==> u16_of(small) == small + 65536,
        large >= 0 ==> u32_of(large) == large,
        large < 0 ==> u32_of(large) == large + 4294967296,
{
}

} // verus!
