use vstd::prelude::*;

verus! {

use crate::checksum::{crc16_calc, crc16_spec};

/// CRC-16/XMODEM of `arr`, with the register starting at `crc_init`; the same
/// checksum as `checksum::crc16_calc`.
pub fn CRC16_CALC(arr: &[u8], crc_init: u16) -> (r: u16)
    ensures
        r == crc16_spec(arr@, crc_init),
{
    crc16_calc(arr, crc_init)
}

} // verus!
