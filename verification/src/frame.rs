//! The two ways a PDU travels: behind an MBAP header over TCP, and between
//! a unit address and a CRC-16 on a serial line.

use crate::bits::{high_byte, lemma_word_of_bytes, low_byte, word};
use crate::crc::{checksum, crc16};
use crate::model::ModbusError;
use vstd::prelude::*;
use vstd::slice::{slice_subrange, slice_to_vec};

verus! {

/// Number of bytes in an MBAP header.
pub const MBAP_HEADER_LEN: usize = 7;

/// Most bytes that one PDU may have.
pub const MAX_PDU_LEN: usize = 253;

/// Fewest bytes that an RTU frame may have: the unit address, a function
/// code and the CRC.
pub const MIN_RTU_FRAME_LEN: usize = 4;

/// The header that carries a PDU over TCP.
#[derive(Clone, Copy, Debug, PartialEq, Eq, Structural)]
pub struct MbapHeader {
    /// Pairs a response with its request.
    pub transaction_id: u16,
    /// Always zero for Modbus.
    pub protocol_id: u16,
    /// Number of bytes that follow the length field: the unit identifier
    /// and the PDU.
    pub length: u16,
    /// The device that the PDU is for, or from.
    pub unit_id: u8,
}

/// The seven bytes of a header, every 16-bit field high byte first.
pub open spec fn mbap_header_bytes(header: MbapHeader) -> Seq<u8> {
    seq![
        high_byte(header.transaction_id),
        low_byte(header.transaction_id),
        high_byte(header.protocol_id),
        low_byte(header.protocol_id),
        high_byte(header.length),
        low_byte(header.length),
        header.unit_id,
    ]
}

/// Whether a header can stand before a PDU: protocol zero, and a length
/// that leaves room for the unit identifier and a PDU of 1 to 253 bytes.
pub open spec fn mbap_header_ok(header: MbapHeader) -> bool {
    header.protocol_id == 0 && 2 <= header.length <= MAX_PDU_LEN + 1
}

/// The fields that seven bytes hold, read as they are.
pub open spec fn mbap_fields(bytes: Seq<u8>) -> MbapHeader {
    MbapHeader {
        transaction_id: word(bytes[0], bytes[1]),
        protocol_id: word(bytes[2], bytes[3]),
        length: word(bytes[4], bytes[5]),
        unit_id: bytes[6],
    }
}

/// The header that seven bytes hold, if they hold an acceptable one.
pub open spec fn parse_mbap_header(bytes: Seq<u8>) -> Result<MbapHeader, ModbusError> {
    if bytes.len() == MBAP_HEADER_LEN && mbap_header_ok(mbap_fields(bytes)) {
        Ok(mbap_fields(bytes))
    } else {
        Err(ModbusError::MalformedFrame)
    }
}

/// The header that goes before a PDU of `pdu_len` bytes.
pub open spec fn mbap_header_for(transaction_id: u16, unit_id: u8, pdu_len: nat) -> MbapHeader {
    MbapHeader { transaction_id, protocol_id: 0, length: (pdu_len + 1) as u16, unit_id }
}

/// A PDU framed for TCP: the header, then the PDU.
pub open spec fn tcp_frame_bytes(transaction_id: u16, unit_id: u8, pdu: Seq<u8>) -> Seq<u8> {
    mbap_header_bytes(mbap_header_for(transaction_id, unit_id, pdu.len())) + pdu
}

/// The header and PDU that a TCP frame holds: the header must be
/// acceptable and its length field must be the number of bytes behind it.
pub open spec fn parse_tcp_frame(frame: Seq<u8>) -> Result<(MbapHeader, Seq<u8>), ModbusError> {
    if frame.len() >= MBAP_HEADER_LEN && parse_mbap_header(
        frame.take(MBAP_HEADER_LEN as int),
    ).is_ok() && frame.len() == 6 + mbap_fields(frame).length {
        Ok((mbap_fields(frame), frame.skip(MBAP_HEADER_LEN as int)))
    } else {
        Err(ModbusError::MalformedFrame)
    }
}

/// A PDU framed for a serial line: the unit address, the PDU, and the
/// CRC-16 of both, low byte first.
pub open spec fn rtu_frame_bytes(unit_id: u8, pdu: Seq<u8>) -> Seq<u8> {
    let body = seq![unit_id] + pdu;
    body.push(low_byte(crc16(body))).push(high_byte(crc16(body)))
}

/// Whether the last two bytes of a frame are the CRC-16 of the bytes before
/// them.
pub open spec fn crc_matches(frame: Seq<u8>) -> bool {
    frame.len() >= 2 && word(frame[frame.len() - 1], frame[frame.len() - 2]) == crc16(
        frame.take(frame.len() - 2),
    )
}

/// The unit address and PDU that an RTU frame holds: the frame must be
/// long enough for an address, a function code and a CRC, and the CRC must
/// match.
pub open spec fn parse_rtu_frame(frame: Seq<u8>) -> Result<(u8, Seq<u8>), ModbusError> {
    if frame.len() >= MIN_RTU_FRAME_LEN && crc_matches(frame) {
        Ok((frame[0], frame.subrange(1, frame.len() - 2)))
    } else {
        Err(ModbusError::MalformedFrame)
    }
}

/// A header written as bytes and read back is the same header, whenever it
/// is an acceptable one.
pub proof fn lemma_mbap_header_round_trip(header: MbapHeader)
    requires
        mbap_header_ok(header),
    ensures
        mbap_header_bytes(header).len() == MBAP_HEADER_LEN,
        parse_mbap_header(mbap_header_bytes(header)) == Ok::<MbapHeader, ModbusError>(header),
{
    lemma_word_of_bytes(header.transaction_id, 0, 0);
    lemma_word_of_bytes(header.protocol_id, 0, 0);
    lemma_word_of_bytes(header.length, 0, 0);
}

/// Taking a TCP frame apart gives back the transaction identifier, the unit
/// identifier and the PDU that it was made of.
pub proof fn lemma_tcp_frame_round_trip(transaction_id: u16, unit_id: u8, pdu: Seq<u8>)
    requires
        1 <= pdu.len() <= MAX_PDU_LEN,
    ensures
        parse_tcp_frame(tcp_frame_bytes(transaction_id, unit_id, pdu)) == Ok::<
            (MbapHeader, Seq<u8>),
            ModbusError,
        >((mbap_header_for(transaction_id, unit_id, pdu.len()), pdu)),
{
    let header = mbap_header_for(transaction_id, unit_id, pdu.len());
    let frame = tcp_frame_bytes(transaction_id, unit_id, pdu);
    lemma_mbap_header_round_trip(header);
    assert(frame.take(MBAP_HEADER_LEN as int) =~= mbap_header_bytes(header));
    assert(frame.skip(MBAP_HEADER_LEN as int) =~= pdu);
    assert(mbap_fields(frame) == mbap_fields(mbap_header_bytes(header)));
}

/// Taking an RTU frame apart gives back the unit address and the PDU that
/// it was made of.
pub proof fn lemma_rtu_frame_round_trip(unit_id: u8, pdu: Seq<u8>)
    requires
        pdu.len() >= 1,
    ensures
        rtu_frame_bytes(unit_id, pdu).len() == pdu.len() + 3,
        parse_rtu_frame(rtu_frame_bytes(unit_id, pdu)) == Ok::<(u8, Seq<u8>), ModbusError>(
            (unit_id, pdu),
        ),
{
    let body = seq![unit_id] + pdu;
    let frame = rtu_frame_bytes(unit_id, pdu);
    lemma_word_of_bytes(crc16(body), 0, 0);
    assert(frame.take(frame.len() - 2) =~= body);
    assert(frame.subrange(1, frame.len() - 2) =~= pdu);
}

/// A frame whose last two bytes are not the CRC-16 of the bytes before
/// them is refused, whatever it holds.
pub proof fn lemma_rtu_crc_guards(body: Seq<u8>, low: u8, high: u8)
    requires
        low != low_byte(crc16(body)) || high != high_byte(crc16(body)),
    ensures
        parse_rtu_frame(body.push(low).push(high)) == Err::<(u8, Seq<u8>), ModbusError>(
            ModbusError::MalformedFrame,
        ),
{
    let frame = body.push(low).push(high);
    lemma_word_of_bytes(crc16(body), high, low);
    assert(frame.take(frame.len() - 2) =~= body);
}

/// Writes a header as its seven bytes.
pub fn encode_mbap_header(header: &MbapHeader) -> (bytes: Vec<u8>)
    ensures
        bytes@ == mbap_header_bytes(*header),
{
    let mut out: Vec<u8> = Vec::new();
    out.push((header.transaction_id / 256) as u8);
    out.push((header.transaction_id % 256) as u8);
    out.push((header.protocol_id / 256) as u8);
    out.push((header.protocol_id % 256) as u8);
    out.push((header.length / 256) as u8);
    out.push((header.length % 256) as u8);
    out.push(header.unit_id);
    proof {
        assert(out@ =~= mbap_header_bytes(*header));
    }
    out
}

/// Reads a header from exactly seven bytes. Fails with `MalformedFrame` on
/// any other number of bytes, a protocol identifier that is not zero, or a
/// length field outside 2 to 254.
pub fn decode_mbap_header(bytes: &[u8]) -> (header: Result<MbapHeader, ModbusError>)
    ensures
        header == parse_mbap_header(bytes@),
{
    if bytes.len() != MBAP_HEADER_LEN {
        return Err(ModbusError::MalformedFrame);
    }
    let header = MbapHeader {
        transaction_id: (bytes[0] as u16) * 256 + (bytes[1] as u16),
        protocol_id: (bytes[2] as u16) * 256 + (bytes[3] as u16),
        length: (bytes[4] as u16) * 256 + (bytes[5] as u16),
        unit_id: bytes[6],
    };
    if header.protocol_id == 0 && 2 <= header.length && header.length as usize <= MAX_PDU_LEN + 1 {
        Ok(header)
    } else {
        Err(ModbusError::MalformedFrame)
    }
}

/// Frames a PDU for TCP.
pub fn tcp_frame(transaction_id: u16, unit_id: u8, pdu: &[u8]) -> (frame: Vec<u8>)
    requires
        1 <= pdu@.len() <= MAX_PDU_LEN,
    ensures
        frame@ == tcp_frame_bytes(transaction_id, unit_id, pdu@),
        frame@.len() == MBAP_HEADER_LEN + pdu@.len(),
{
    let header = MbapHeader {
        transaction_id,
        protocol_id: 0,
        length: (pdu.len() + 1) as u16,
        unit_id,
    };
    let mut out = encode_mbap_header(&header);
    let mut body = slice_to_vec(pdu);
    out.append(&mut body);
    out
}

/// Takes a TCP frame apart. Fails with `MalformedFrame` unless the frame
/// opens with an acceptable header whose length field is the number of
/// bytes behind it.
pub fn tcp_unframe(frame: &[u8]) -> (parts: Result<(MbapHeader, Vec<u8>), ModbusError>)
    ensures
        match parts {
            Ok((header, pdu)) => parse_tcp_frame(frame@) == Ok::<
                (MbapHeader, Seq<u8>),
                ModbusError,
            >((header, pdu@)),
            Err(e) => parse_tcp_frame(frame@) == Err::<(MbapHeader, Seq<u8>), ModbusError>(e),
        },
{
    if frame.len() < MBAP_HEADER_LEN {
        return Err(ModbusError::MalformedFrame);
    }
    match decode_mbap_header(slice_subrange(frame, 0, MBAP_HEADER_LEN)) {
        Ok(header) => {
            if frame.len() == 6 + header.length as usize {
                Ok((header, slice_to_vec(slice_subrange(frame, MBAP_HEADER_LEN, frame.len()))))
            } else {
                Err(ModbusError::MalformedFrame)
            }
        },
        Err(e) => Err(e),
    }
}

/// Frames a PDU for a serial line.
pub fn rtu_frame(unit_id: u8, pdu: &[u8]) -> (frame: Vec<u8>)
    ensures
        frame@ == rtu_frame_bytes(unit_id, pdu@),
        frame@.len() == pdu@.len() + 3,
{
    let mut out: Vec<u8> = Vec::new();
    out.push(unit_id);
    let mut body = slice_to_vec(pdu);
    out.append(&mut body);
    proof {
        assert(out@ =~= seq![unit_id] + pdu@);
    }
    let crc = checksum(out.as_slice());
    out.push((crc % 256) as u8);
    out.push((crc / 256) as u8);
    out
}

/// Whether the last two bytes of a frame are the CRC-16 of the rest.
pub fn check_crc(frame: &[u8]) -> (good: bool)
    ensures
        good == crc_matches(frame@),
{
    if frame.len() < 2 {
        return false;
    }
    let n = frame.len();
    let sent = (frame[n - 1] as u16) * 256 + (frame[n - 2] as u16);
    sent == checksum(slice_subrange(frame, 0, n - 2))
}

/// Takes an RTU frame apart. Fails with `MalformedFrame` when the frame is
/// shorter than four bytes or its CRC does not match.
pub fn rtu_unframe(frame: &[u8]) -> (parts: Result<(u8, Vec<u8>), ModbusError>)
    ensures
        match parts {
            Ok((unit_id, pdu)) => parse_rtu_frame(frame@) == Ok::<(u8, Seq<u8>), ModbusError>(
                (unit_id, pdu@),
            ),
            Err(e) => parse_rtu_frame(frame@) == Err::<(u8, Seq<u8>), ModbusError>(e),
        },
{
    if frame.len() >= MIN_RTU_FRAME_LEN && check_crc(frame) {
        Ok((frame[0], slice_to_vec(slice_subrange(frame, 1, frame.len() - 2))))
    } else {
        Err(ModbusError::MalformedFrame)
    }
}

}
