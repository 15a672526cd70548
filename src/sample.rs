//! Decoding of raw conversion results.

use vstd::prelude::*;

verus! {

/// The value of three big-endian bytes read as a 24-bit two's-complement integer.
pub open spec fn sample_value(b0: u8, b1: u8, b2: u8) -> int {
    let unsigned = b0 as int * 65536 + b1 as int * 256 + b2 as int;
    if b0 >= 128 {
        unsigned - 16777216
    } else {
        unsigned
    }
}

/// Sign-extends a 24-bit big-endian sample to a 32-bit signed integer.
pub fn decode_sample(data: [u8; 3]) -> (r: i32)
    ensures
        r as int == sample_value(data[0], data[1], data[2]),
        -8388608 <= r < 8388608,
{
    let unsigned: i32 = (data[0] as i32) * 65536 + (data[1] as i32) * 256 + (data[2] as i32);
    if data[0] >= 128 {
        unsigned - 16777216
    } else {
        unsigned
    }
}

} // verus!
