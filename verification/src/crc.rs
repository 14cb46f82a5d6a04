//! The CRC-16 that closes every RTU frame: reflected polynomial 0xA001,
//! start value 0xFFFF, sent low byte first.

use crate::bits::{high_byte, low_byte};
use vstd::prelude::*;

verus! {

/// One bit step of the register: shift right, and fold the polynomial in
/// when the bit shifted out was set.
pub open spec fn crc_shift(crc: u16) -> u16 {
    if crc & 1 == 1 {
        (crc >> 1) ^ 0xA001
    } else {
        crc >> 1
    }
}

/// The register after one more byte of data: the byte is folded into the
/// low half, then eight bit steps follow.
pub open spec fn crc_update(crc: u16, byte: u8) -> u16 {
    crc_shift(
        crc_shift(
            crc_shift(
                crc_shift(crc_shift(crc_shift(crc_shift(crc_shift(crc ^ (byte as u16)))))),
            ),
        ),
    )
}

/// The CRC-16 of a sequence of bytes.
pub open spec fn crc16(data: Seq<u8>) -> u16
    decreases data.len(),
{
    if data.len() == 0 {
        0xFFFFu16
    } else {
        crc_update(crc16(data.drop_last()), data.last())
    }
}

fn shift(crc: u16) -> (next: u16)
    ensures
        next == crc_shift(crc),
{
    if crc & 1 == 1 {
        (crc >> 1) ^ 0xA001
    } else {
        crc >> 1
    }
}

fn update(crc: u16, byte: u8) -> (next: u16)
    ensures
        next == crc_update(crc, byte),
{
    let mut reg: u16 = crc ^ (byte as u16);
    reg = shift(shift(shift(shift(reg))));
    shift(shift(shift(shift(reg))))
}

/// Computes the CRC-16 of `data`.
pub fn checksum(data: &[u8]) -> (crc: u16)
    ensures
        crc == crc16(data@),
{
    let mut crc: u16 = 0xFFFF;
    let mut i: usize = 0;
    while i < data.len()
        invariant
            i <= data@.len(),
            crc == crc16(data@.take(i as int)),
        decreases data@.len() - i,
    {
        proof {
            assert(data@.take(i + 1).drop_last() =~= data@.take(i as int));
        }
        crc = update(crc, data[i]);
        i += 1;
    }
    proof {
        assert(data@.take(i as int) =~= data@);
    }
    crc
}

/// The CRC of data followed by one more byte is one update of the CRC of
/// the data.
pub proof fn lemma_crc_push(data: Seq<u8>, byte: u8)
    ensures
        crc16(data.push(byte)) == crc_update(crc16(data), byte),
{
    assert(data.push(byte).drop_last() =~= data);
}

proof fn lemma_fold_low(crc: u16, low: u8)
    by (bit_vector)
    requires
        low == (crc % 256) as u8,
    ensures
        ({
            let x0 = crc ^ (low as u16);
            let x1 = x0 >> 1;
            let x2 = x1 >> 1;
            let x3 = x2 >> 1;
            let x4 = x3 >> 1;
            let x5 = x4 >> 1;
            let x6 = x5 >> 1;
            let x7 = x6 >> 1;
            &&& x0 & 1 == 0
            &&& x1 & 1 == 0
            &&& x2 & 1 == 0
            &&& x3 & 1 == 0
            &&& x4 & 1 == 0
            &&& x5 & 1 == 0
            &&& x6 & 1 == 0
            &&& x7 & 1 == 0
            &&& (x7 >> 1) ^ (((crc / 256) as u8) as u16) == 0
        }),
{
}

proof fn lemma_residue(crc: u16, low: u8, high: u8)
    requires
        low == (crc % 256) as u8,
        high == (crc / 256) as u8,
    ensures
        crc_update(crc_update(crc, low), high) == 0,
{
    lemma_fold_low(crc, low);
    let x0 = crc ^ (low as u16);
    let x1 = x0 >> 1;
    let x2 = x1 >> 1;
    let x3 = x2 >> 1;
    let x4 = x3 >> 1;
    let x5 = x4 >> 1;
    let x6 = x5 >> 1;
    let x7 = x6 >> 1;
    assert(crc_shift(x0) == x1);
    assert(crc_shift(x1) == x2);
    assert(crc_shift(x2) == x3);
    assert(crc_shift(x3) == x4);
    assert(crc_shift(x4) == x5);
    assert(crc_shift(x5) == x6);
    assert(crc_shift(x6) == x7);
    assert(crc_shift(x7) == x7 >> 1);
    assert(crc_update(crc, low) == x7 >> 1);
    assert(0u16 & 1 == 0 && 0u16 >> 1 == 0) by (bit_vector);
    assert(crc_shift(0) == 0);
}

/// Data followed by its own CRC, low byte first, has CRC zero: a receiver
/// may check a frame by running the CRC over all of it.
pub proof fn lemma_crc_residue(data: Seq<u8>)
    ensures
        crc16(data.push(low_byte(crc16(data))).push(high_byte(crc16(data)))) == 0,
{
    let crc = crc16(data);
    lemma_crc_push(data, low_byte(crc));
    lemma_crc_push(data.push(low_byte(crc)), high_byte(crc));
    lemma_residue(crc, low_byte(crc), high_byte(crc));
}

}
