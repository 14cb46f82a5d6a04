//! Bit-packed coils and big-endian registers, as they travel inside a PDU.
//!
//! The conversions between bits or registers and bytes are done by the
//! `modbus` crate's `binary` module; what they compute is stated here and
//! the rest of the engine is proved against that statement.

use crate::model::{Coil, ModbusError};
use vstd::prelude::*;

verus! {

/// Number of bytes that `count` packed bits occupy.
pub open spec fn packed_len(count: nat) -> nat {
    (count + 7) / 8
}

/// The value of bit `i`: 1 when it is set, 0 when it is clear and for
/// every index past the end.
pub open spec fn bit_value(bits: Seq<bool>, i: int) -> u8 {
    if 0 <= i < bits.len() && bits[i] {
        1u8
    } else {
        0u8
    }
}

/// Byte `j` of the packed form: bit `8 * j + k` of the sequence sits at bit
/// `k` of the byte.
pub open spec fn packed_byte(bits: Seq<bool>, j: int) -> u8 {
    bit_value(bits, 8 * j) | (bit_value(bits, 8 * j + 1) << 1) | (bit_value(bits, 8 * j + 2) << 2)
        | (bit_value(bits, 8 * j + 3) << 3) | (bit_value(bits, 8 * j + 4) << 4) | (bit_value(
        bits,
        8 * j + 5,
    ) << 5) | (bit_value(bits, 8 * j + 6) << 6) | (bit_value(bits, 8 * j + 7) << 7)
}

/// The packed form of a sequence of bits: the first is bit 0 of byte 0, and
/// the unused high bits of the last byte are zero.
pub open spec fn packed_bits(bits: Seq<bool>) -> Seq<u8> {
    Seq::new(packed_len(bits.len()), |j: int| packed_byte(bits, j))
}

/// Coils as bits: set for `On`, clear for `Off`.
pub open spec fn coil_bits(coils: Seq<Coil>) -> Seq<bool> {
    Seq::new(coils.len(), |i: int| coils[i] == Coil::On)
}

/// The packed form of a sequence of coils: the first coil is bit 0 of byte
/// 0, and the unused high bits of the last byte are zero.
pub open spec fn packed_coils(coils: Seq<Coil>) -> Seq<u8> {
    packed_bits(coil_bits(coils))
}

/// Whether bit `k` of `byte` is set.
pub open spec fn bit_is_set(byte: u8, k: u8) -> bool {
    (byte >> k) & 1 == 1
}

/// The first `count` bits held in packed `bytes`.
pub open spec fn unpacked_bits(bytes: Seq<u8>, count: nat) -> Seq<bool> {
    Seq::new(count, |i: int| bit_is_set(bytes[i / 8], (i % 8) as u8))
}

/// The first `count` coils held in packed `bytes`.
pub open spec fn unpacked_coils(bytes: Seq<u8>, count: nat) -> Seq<Coil> {
    Seq::new(
        count,
        |i: int|
            if bit_is_set(bytes[i / 8], (i % 8) as u8) {
                Coil::On
            } else {
                Coil::Off
            },
    )
}

/// The more significant byte of a 16-bit value.
pub open spec fn high_byte(value: u16) -> u8 {
    (value / 256) as u8
}

/// The less significant byte of a 16-bit value.
pub open spec fn low_byte(value: u16) -> u8 {
    (value % 256) as u8
}

/// The 16-bit value with the given bytes, more significant first.
pub open spec fn word(high: u8, low: u8) -> u16 {
    (high * 256 + low) as u16
}

/// Registers laid out as bytes, each register high byte first.
pub open spec fn register_bytes(registers: Seq<u16>) -> Seq<u8> {
    Seq::new(
        2 * registers.len(),
        |k: int|
            if k % 2 == 0 {
                high_byte(registers[k / 2])
            } else {
                low_byte(registers[k / 2])
            },
    )
}

/// The registers that an even number of bytes holds.
pub open spec fn registers_of(bytes: Seq<u8>) -> Seq<u16> {
    Seq::new(bytes.len() / 2, |i: int| word(bytes[2 * i], bytes[2 * i + 1]))
}

proof fn lemma_bit_of_byte(b0: u8, b1: u8, b2: u8, b3: u8, b4: u8, b5: u8, b6: u8, b7: u8, k: u8)
    by (bit_vector)
    requires
        b0 <= 1,
        b1 <= 1,
        b2 <= 1,
        b3 <= 1,
        b4 <= 1,
        b5 <= 1,
        b6 <= 1,
        b7 <= 1,
        k < 8,
    ensures
        (((b0 | (b1 << 1) | (b2 << 2) | (b3 << 3) | (b4 << 4) | (b5 << 5) | (b6 << 6) | (b7 << 7))
            >> k) & 1) == (if k == 0 {
            b0
        } else if k == 1 {
            b1
        } else if k == 2 {
            b2
        } else if k == 3 {
            b3
        } else if k == 4 {
            b4
        } else if k == 5 {
            b5
        } else if k == 6 {
            b6
        } else {
            b7
        }),
{
}

/// Bit `i % 8` of byte `i / 8` of the packed form is set exactly when bit
/// `i` of the sequence is; past the last bit every bit is clear.
pub proof fn lemma_packed_bit(bits: Seq<bool>, i: int)
    requires
        0 <= i,
    ensures
        bit_is_set(packed_byte(bits, i / 8), (i % 8) as u8) == (i < bits.len() && bits[i]),
{
    let j = i / 8;
    let k = (i % 8) as u8;
    lemma_bit_of_byte(
        bit_value(bits, 8 * j),
        bit_value(bits, 8 * j + 1),
        bit_value(bits, 8 * j + 2),
        bit_value(bits, 8 * j + 3),
        bit_value(bits, 8 * j + 4),
        bit_value(bits, 8 * j + 5),
        bit_value(bits, 8 * j + 6),
        bit_value(bits, 8 * j + 7),
        k,
    );
    assert(8 * j + k == i);
}

/// Packing any coils and unpacking as many gives the same coils back, the
/// last, partly filled byte included.
pub proof fn lemma_pack_unpack_coils(coils: Seq<Coil>)
    ensures
        packed_coils(coils).len() == packed_len(coils.len()),
        unpacked_coils(packed_coils(coils), coils.len()) == coils,
{
    let bits = coil_bits(coils);
    let back = unpacked_coils(packed_coils(coils), coils.len());
    assert forall|i: int| 0 <= i < coils.len() implies back[i] == coils[i] by {
        lemma_packed_bit(bits, i);
        assert(packed_coils(coils)[i / 8] == packed_byte(bits, i / 8));
        assert(bits[i] == (coils[i] == Coil::On));
    }
    assert(back =~= coils);
}

/// Unpacking reads only the bits it is asked for: bytes that pack the same
/// coils may differ in the unused high bits of the last byte, and bytes
/// past the packed length are not looked at.
pub proof fn lemma_unpack_ignores_padding(bytes: Seq<u8>, count: nat)
    requires
        packed_len(count) <= bytes.len(),
    ensures
        unpacked_coils(bytes, count) == unpacked_coils(bytes.take(packed_len(count) as int), count),
{
    let short = bytes.take(packed_len(count) as int);
    assert forall|i: int| 0 <= i < count implies unpacked_coils(bytes, count)[i] == unpacked_coils(
        short,
        count,
    )[i] by {
        assert(short[i / 8] == bytes[i / 8]);
    }
    assert(unpacked_coils(bytes, count) =~= unpacked_coils(short, count));
}

/// A 16-bit value is made of its two bytes.
pub proof fn lemma_word_of_bytes(value: u16, high: u8, low: u8)
    ensures
        word(high_byte(value), low_byte(value)) == value,
        high_byte(word(high, low)) == high,
        low_byte(word(high, low)) == low,
{
}

/// Registers written as bytes and read back are the same registers.
pub proof fn lemma_registers_round_trip(registers: Seq<u16>)
    ensures
        register_bytes(registers).len() == 2 * registers.len(),
        registers_of(register_bytes(registers)) == registers,
{
    let bytes = register_bytes(registers);
    assert forall|i: int| 0 <= i < registers.len() implies registers_of(bytes)[i]
        == registers[i] by {
        lemma_word_of_bytes(registers[i], 0, 0);
        assert(bytes[2 * i] == high_byte(registers[(2 * i) / 2]));
        assert(bytes[2 * i + 1] == low_byte(registers[(2 * i + 1) / 2]));
    }
    assert(registers_of(bytes) =~= registers);
}

/// An even number of bytes read as registers and written back are the same
/// bytes.
pub proof fn lemma_bytes_round_trip(bytes: Seq<u8>)
    requires
        bytes.len() % 2 == 0,
    ensures
        register_bytes(registers_of(bytes)) == bytes,
{
    let registers = registers_of(bytes);
    assert forall|k: int| 0 <= k < bytes.len() implies register_bytes(registers)[k]
        == bytes[k] by {
        let i = k / 2;
        lemma_word_of_bytes(0, bytes[2 * i], bytes[2 * i + 1]);
        assert(registers[i] == word(bytes[2 * i], bytes[2 * i + 1]));
    }
    assert(register_bytes(registers) =~= bytes);
}

/// The error type of the `modbus` crate. Nothing is known of a value of it
/// here; it is only told apart from success.
#[verifier::external_type_specification]
#[verifier::external_body]
pub struct ExModbusError(modbus::Error);

/// `modbus::binary::pack_bits`, on coils made from the bits by the crate's
/// own `From<bool>` (set gives `On`): one byte for every eight bits, rounded
/// up, each set bit OR-ed into bit `i % 8` of byte `i / 8` of a zeroed
/// buffer.
#[verifier::external_body]
fn binary_pack_bits(bits: &[bool]) -> (bytes: Vec<u8>)
    ensures
        bytes@ == packed_bits(bits@),
{
    let coils: Vec<modbus::Coil> = bits.iter().map(|bit| modbus::Coil::from(*bit)).collect();
    modbus::binary::pack_bits(&coils)
}

/// `modbus::binary::unpack_bits`, each coil of its result handed out as a
/// bit (`On` as set): bit `i` of the result is set exactly when bit `i % 8`
/// of byte `i / 8` is. It indexes the bytes without a bounds test, so the
/// bytes must hold `count` bits.
#[verifier::external_body]
fn binary_unpack_bits(bytes: &[u8], count: u16) -> (bits: Vec<bool>)
    requires
        packed_len(count as nat) <= bytes@.len(),
    ensures
        bits@ == unpacked_bits(bytes@, count as nat),
{
    let coils: Vec<modbus::Coil> = modbus::binary::unpack_bits(bytes, count);
    coils.into_iter().map(
        |coil|
            match coil {
                modbus::Coil::On => true,
                modbus::Coil::Off => false,
            },
    ).collect()
}

/// `modbus::binary::unpack_bytes`: two bytes for each register, the high
/// byte first.
#[verifier::external_body]
fn binary_unpack_bytes(registers: &[u16]) -> (bytes: Vec<u8>)
    ensures
        bytes@ == register_bytes(registers@),
{
    modbus::binary::unpack_bytes(registers)
}

/// `modbus::binary::pack_bytes`: refuses an odd number of bytes, and else
/// reads each pair as one big-endian register.
#[verifier::external_body]
fn binary_pack_bytes(bytes: &[u8]) -> (registers: Result<Vec<u16>, modbus::Error>)
    ensures
        registers.is_ok() <==> bytes@.len() % 2 == 0,
        registers.is_ok() ==> registers.unwrap()@ == registers_of(bytes@),
{
    modbus::binary::pack_bytes(bytes)
}

/// Packs coils eight to a byte, the first coil in bit 0 of byte 0. A coil
/// that is `On` becomes a set bit.
pub fn pack_coils(coils: &[Coil]) -> (bytes: Vec<u8>)
    ensures
        bytes@ == packed_coils(coils@),
        bytes@.len() == packed_len(coils@.len()),
{
    let mut bits: Vec<bool> = Vec::new();
    let mut i: usize = 0;
    while i < coils.len()
        invariant
            i <= coils@.len(),
            bits@.len() == i,
            forall|k: int| 0 <= k < i ==> bits@[k] == (coils@[k] == Coil::On),
        decreases coils@.len() - i,
    {
        bits.push(coils[i].is_on());
        i += 1;
    }
    proof {
        assert(bits@ =~= coil_bits(coils@));
    }
    binary_pack_bits(bits.as_slice())
}

/// Unpacks the first `count` coils from packed bytes. Bits past `count` are
/// ignored. Fails with `MalformedFrame` exactly when the bytes are too few
/// to hold `count` bits.
pub fn unpack_coils(bytes: &[u8], count: u16) -> (coils: Result<Vec<Coil>, ModbusError>)
    ensures
        coils.is_ok() <==> packed_len(count as nat) <= bytes@.len(),
        coils.is_ok() ==> coils.unwrap()@ == unpacked_coils(bytes@, count as nat),
        coils.is_err() ==> coils == Err::<Vec<Coil>, ModbusError>(ModbusError::MalformedFrame),
{
    if (count as usize + 7) / 8 > bytes.len() {
        return Err(ModbusError::MalformedFrame);
    }
    let bits = binary_unpack_bits(bytes, count);
    let mut coils: Vec<Coil> = Vec::new();
    let mut i: usize = 0;
    while i < bits.len()
        invariant
            i <= bits@.len(),
            bits@ == unpacked_bits(bytes@, count as nat),
            coils@.len() == i,
            forall|k: int| 0 <= k < i ==> coils@[k] == unpacked_coils(bytes@, count as nat)[k],
        decreases bits@.len() - i,
    {
        coils.push(Coil::from_bool(bits[i]));
        i += 1;
    }
    proof {
        assert(coils@ =~= unpacked_coils(bytes@, count as nat));
    }
    Ok(coils)
}

/// Lays registers out as bytes, each register high byte first.
pub fn registers_to_bytes(registers: &[u16]) -> (bytes: Vec<u8>)
    ensures
        bytes@ == register_bytes(registers@),
        bytes@.len() == 2 * registers@.len(),
{
    binary_unpack_bytes(registers)
}

/// Reads big-endian registers from bytes. Fails with `MalformedFrame`
/// exactly when the number of bytes is odd.
pub fn bytes_to_registers(bytes: &[u8]) -> (registers: Result<Vec<u16>, ModbusError>)
    ensures
        registers.is_ok() <==> bytes@.len() % 2 == 0,
        registers.is_ok() ==> registers.unwrap()@ == registers_of(bytes@),
        registers.is_err() ==> registers == Err::<Vec<u16>, ModbusError>(ModbusError::MalformedFrame),
{
    match binary_pack_bytes(bytes) {
        Ok(registers) => Ok(registers),
        Err(_) => Err(ModbusError::MalformedFrame),
    }
}

}
