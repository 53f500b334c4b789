//! Protobuf wire type codes.
use vstd::prelude::*;

verus! {

pub const VARINT: u8 = 0;
pub const FIXED64: u8 = 1;
pub const LEN: u8 = 2;
pub const START_GROUP: u8 = 3;
pub const END_GROUP: u8 = 4;
pub const FIXED32: u8 = 5;

} // verus!
