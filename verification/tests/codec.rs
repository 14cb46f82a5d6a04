use modbus_prizm230::bits::{bytes_to_registers, pack_coils, registers_to_bytes, unpack_coils};
use modbus_prizm230::model::{Coil, FunctionCode, ModbusError};
use modbus_prizm230::pdu::{
    decode_request, decode_response, encode_exception, encode_request, encode_response,
    max_quantity, response_pdu_len, Request, Response,
};

fn pattern(count: usize) -> Vec<Coil> {
    (0..count).map(|i| Coil::from_bool(i % 3 == 0 || i % 7 == 2)).collect()
}

#[test]
fn coil_wire_values() {
    assert_eq!(Coil::On.to_wire(), 0xFF00);
    assert_eq!(Coil::Off.to_wire(), 0x0000);
    assert_eq!(Coil::from_wire(0xFF00), Some(Coil::On));
    assert_eq!(Coil::from_wire(0x0000), Some(Coil::Off));
    assert_eq!(Coil::from_wire(0x00FF), None);
    assert_eq!(Coil::from_wire(0x0001), None);
    assert_eq!(Coil::from_wire(0xFFFF), None);
    assert!(Coil::On.is_on());
    assert!(!Coil::Off.is_on());
    assert_eq!(Coil::from_bool(true), Coil::On);
    assert_eq!(Coil::from_bool(false), Coil::Off);
}

#[test]
fn function_codes() {
    let all = [
        (FunctionCode::ReadCoils, 0x01u8),
        (FunctionCode::ReadDiscreteInputs, 0x02),
        (FunctionCode::ReadHoldingRegisters, 0x03),
        (FunctionCode::ReadInputRegisters, 0x04),
        (FunctionCode::WriteSingleCoil, 0x05),
        (FunctionCode::WriteSingleRegister, 0x06),
        (FunctionCode::WriteMultipleCoils, 0x0F),
        (FunctionCode::WriteMultipleRegisters, 0x10),
    ];
    for (function, code) in all {
        assert_eq!(function.code(), code);
        assert_eq!(FunctionCode::from_code(code), Some(function));
    }
    assert_eq!(FunctionCode::from_code(0x00), None);
    assert_eq!(FunctionCode::from_code(0x07), None);
    assert_eq!(FunctionCode::from_code(0x17), None);
    assert_eq!(FunctionCode::from_code(0x83), None);
}

#[test]
fn quantity_limits() {
    assert_eq!(max_quantity(FunctionCode::ReadCoils), 2000);
    assert_eq!(max_quantity(FunctionCode::ReadDiscreteInputs), 2000);
    assert_eq!(max_quantity(FunctionCode::ReadHoldingRegisters), 125);
    assert_eq!(max_quantity(FunctionCode::ReadInputRegisters), 125);
    assert_eq!(max_quantity(FunctionCode::WriteSingleCoil), 1);
    assert_eq!(max_quantity(FunctionCode::WriteSingleRegister), 1);
    assert_eq!(max_quantity(FunctionCode::WriteMultipleCoils), 1968);
    assert_eq!(max_quantity(FunctionCode::WriteMultipleRegisters), 123);
}

#[test]
fn pack_coils_bit_order() {
    assert_eq!(pack_coils(&[]), Vec::<u8>::new());
    assert_eq!(pack_coils(&[Coil::On]), vec![0x01]);
    assert_eq!(pack_coils(&[Coil::Off]), vec![0x00]);
    assert_eq!(pack_coils(&[Coil::Off, Coil::On]), vec![0x02]);
    assert_eq!(pack_coils(&[Coil::On, Coil::Off, Coil::On]), vec![0x05]);
    assert_eq!(pack_coils(&[Coil::On; 8]), vec![0xFF]);
    assert_eq!(pack_coils(&[Coil::On; 9]), vec![0xFF, 0x01]);
    let mut ten = vec![Coil::Off; 10];
    ten[7] = Coil::On;
    ten[9] = Coil::On;
    assert_eq!(pack_coils(&ten), vec![0x80, 0x02]);
}

#[test]
fn unpack_coils_bit_order() {
    assert_eq!(unpack_coils(&[0x05], 3), Ok(vec![Coil::On, Coil::Off, Coil::On]));
    assert_eq!(unpack_coils(&[0x02], 2), Ok(vec![Coil::Off, Coil::On]));
    assert_eq!(unpack_coils(&[0xFF, 0x03], 10), Ok(vec![Coil::On; 10]));
    assert_eq!(unpack_coils(&[0x00, 0x00], 0), Ok(vec![]));
    assert_eq!(unpack_coils(&[], 0), Ok(vec![]));
}

#[test]
fn unpack_coils_ignores_padding_bits() {
    assert_eq!(unpack_coils(&[0xFD], 2), Ok(vec![Coil::On, Coil::Off]));
    assert_eq!(unpack_coils(&[0x01, 0xFF], 1), Ok(vec![Coil::On]));
}

#[test]
fn unpack_coils_needs_enough_bytes() {
    assert_eq!(unpack_coils(&[], 1), Err(ModbusError::MalformedFrame));
    assert_eq!(unpack_coils(&[0xFF], 9), Err(ModbusError::MalformedFrame));
    assert_eq!(unpack_coils(&[0xFF], 8), Ok(vec![Coil::On; 8]));
}

#[test]
fn coils_round_trip_through_packing() {
    for count in [1usize, 2, 7, 8, 9, 15, 16, 17, 63, 64, 65, 1999, 2000] {
        let coils = pattern(count);
        let bytes = pack_coils(&coils);
        assert_eq!(bytes.len(), (count + 7) / 8);
        assert_eq!(unpack_coils(&bytes, count as u16), Ok(coils));
    }
}

#[test]
fn last_packed_byte_is_zero_padded() {
    let coils = vec![Coil::On; 11];
    assert_eq!(pack_coils(&coils), vec![0xFF, 0x07]);
}

#[test]
fn registers_are_big_endian() {
    assert_eq!(registers_to_bytes(&[]), Vec::<u8>::new());
    assert_eq!(registers_to_bytes(&[0x1234]), vec![0x12, 0x34]);
    assert_eq!(registers_to_bytes(&[0xFFFF, 0x0001]), vec![0xFF, 0xFF, 0x00, 0x01]);
    assert_eq!(bytes_to_registers(&[]), Ok(vec![]));
    assert_eq!(bytes_to_registers(&[0x12, 0x34]), Ok(vec![0x1234]));
    assert_eq!(bytes_to_registers(&[0x00, 0x01, 0x01, 0x00]), Ok(vec![1, 256]));
}

#[test]
fn odd_register_bytes_are_malformed() {
    assert_eq!(bytes_to_registers(&[0x12]), Err(ModbusError::MalformedFrame));
    assert_eq!(bytes_to_registers(&[1, 2, 3]), Err(ModbusError::MalformedFrame));
}

#[test]
fn registers_round_trip_through_bytes() {
    let registers: Vec<u16> = (0..125u16).map(|i| i.wrapping_mul(523).wrapping_add(0xF00F)).collect();
    let bytes = registers_to_bytes(&registers);
    assert_eq!(bytes.len(), 250);
    assert_eq!(bytes_to_registers(&bytes), Ok(registers));
}

#[test]
fn write_single_coil_on_the_wire() {
    let request = Request::WriteSingleCoil { address: 5, coil: Coil::On };
    assert!(request.is_valid());
    assert_eq!(encode_request(&request), vec![0x05, 0x00, 0x05, 0xFF, 0x00]);
    let off = Request::WriteSingleCoil { address: 0x0102, coil: Coil::Off };
    assert_eq!(encode_request(&off), vec![0x05, 0x01, 0x02, 0x00, 0x00]);
}

#[test]
fn requests_on_the_wire() {
    assert_eq!(
        encode_request(&Request::ReadCoils { address: 0x0013, quantity: 0x0025 }),
        vec![0x01, 0x00, 0x13, 0x00, 0x25]
    );
    assert_eq!(
        encode_request(&Request::ReadDiscreteInputs { address: 0x00C4, quantity: 0x0016 }),
        vec![0x02, 0x00, 0xC4, 0x00, 0x16]
    );
    assert_eq!(
        encode_request(&Request::ReadHoldingRegisters { address: 0x006B, quantity: 3 }),
        vec![0x03, 0x00, 0x6B, 0x00, 0x03]
    );
    assert_eq!(
        encode_request(&Request::ReadInputRegisters { address: 8, quantity: 1 }),
        vec![0x04, 0x00, 0x08, 0x00, 0x01]
    );
    assert_eq!(
        encode_request(&Request::WriteSingleRegister { address: 1, value: 0x0003 }),
        vec![0x06, 0x00, 0x01, 0x00, 0x03]
    );
    let coils = [
        Coil::On, Coil::Off, Coil::On, Coil::On, Coil::Off, Coil::Off, Coil::On, Coil::On,
        Coil::On, Coil::Off,
    ];
    assert_eq!(
        encode_request(&Request::WriteMultipleCoils { address: 0x0013, coils: coils.to_vec() }),
        vec![0x0F, 0x00, 0x13, 0x00, 0x0A, 0x02, 0xCD, 0x01]
    );
    assert_eq!(
        encode_request(&Request::WriteMultipleRegisters {
            address: 1,
            values: vec![0x000A, 0x0102],
        }),
        vec![0x10, 0x00, 0x01, 0x00, 0x02, 0x04, 0x00, 0x0A, 0x01, 0x02]
    );
}

fn sample_requests() -> Vec<Request> {
    vec![
        Request::ReadCoils { address: 0, quantity: 1 },
        Request::ReadCoils { address: 63536, quantity: 2000 },
        Request::ReadDiscreteInputs { address: 7, quantity: 9 },
        Request::ReadHoldingRegisters { address: 0xFFFF, quantity: 1 },
        Request::ReadHoldingRegisters { address: 100, quantity: 125 },
        Request::ReadInputRegisters { address: 0x1234, quantity: 17 },
        Request::WriteSingleCoil { address: 5, coil: Coil::On },
        Request::WriteSingleCoil { address: 6, coil: Coil::Off },
        Request::WriteSingleRegister { address: 0xABCD, value: 0xFF00 },
        Request::WriteMultipleCoils { address: 3, coils: pattern(1) },
        Request::WriteMultipleCoils { address: 3, coils: pattern(13) },
        Request::WriteMultipleCoils { address: 0, coils: pattern(1968) },
        Request::WriteMultipleRegisters { address: 9, values: vec![0xBEEF] },
        Request::WriteMultipleRegisters { address: 9, values: (0..123u16).collect() },
    ]
}

#[test]
fn requests_round_trip() {
    for request in sample_requests() {
        assert!(request.is_valid());
        let bytes = encode_request(&request);
        assert_eq!(decode_request(&bytes), Ok(request));
    }
}

#[test]
fn request_accessors() {
    let request = Request::WriteMultipleRegisters { address: 9, values: vec![1, 2, 3] };
    assert_eq!(request.function(), FunctionCode::WriteMultipleRegisters);
    assert_eq!(request.address(), 9);
    assert_eq!(request.count(), 3);
    let read = Request::ReadCoils { address: 2, quantity: 40 };
    assert_eq!(read.function(), FunctionCode::ReadCoils);
    assert_eq!(read.address(), 2);
    assert_eq!(read.count(), 40);
    assert_eq!(Request::WriteSingleCoil { address: 1, coil: Coil::On }.count(), 1);
}

#[test]
fn validity_bounds() {
    assert!(!Request::ReadCoils { address: 0, quantity: 0 }.is_valid());
    assert!(Request::ReadCoils { address: 0, quantity: 2000 }.is_valid());
    assert!(!Request::ReadCoils { address: 0, quantity: 2001 }.is_valid());
    assert!(!Request::ReadDiscreteInputs { address: 0, quantity: 2001 }.is_valid());
    assert!(Request::ReadHoldingRegisters { address: 0, quantity: 125 }.is_valid());
    assert!(!Request::ReadHoldingRegisters { address: 0, quantity: 126 }.is_valid());
    assert!(!Request::ReadInputRegisters { address: 0, quantity: 126 }.is_valid());
    assert!(!Request::ReadInputRegisters { address: 0, quantity: 0 }.is_valid());
    assert!(Request::WriteMultipleCoils { address: 0, coils: vec![Coil::On; 1968] }.is_valid());
    assert!(!Request::WriteMultipleCoils { address: 0, coils: vec![Coil::On; 1969] }.is_valid());
    assert!(!Request::WriteMultipleCoils { address: 0, coils: vec![] }.is_valid());
    assert!(Request::WriteMultipleRegisters { address: 0, values: vec![0; 123] }.is_valid());
    assert!(!Request::WriteMultipleRegisters { address: 0, values: vec![0; 124] }.is_valid());
    assert!(!Request::WriteMultipleRegisters { address: 0, values: vec![] }.is_valid());
    assert!(Request::WriteSingleCoil { address: 0xFFFF, coil: Coil::On }.is_valid());
    assert!(Request::WriteSingleRegister { address: 0xFFFF, value: 0 }.is_valid());
}

#[test]
fn validity_stops_at_the_end_of_the_address_space() {
    assert!(Request::ReadCoils { address: 0xFFFF, quantity: 1 }.is_valid());
    assert!(!Request::ReadCoils { address: 0xFFFF, quantity: 2 }.is_valid());
    assert!(Request::ReadHoldingRegisters { address: 65411, quantity: 125 }.is_valid());
    assert!(!Request::ReadHoldingRegisters { address: 65412, quantity: 125 }.is_valid());
    assert!(!Request::WriteMultipleRegisters { address: 0xFFFF, values: vec![1, 2] }.is_valid());
}

#[test]
fn checked_hands_on_or_refuses() {
    let good = Request::ReadCoils { address: 1, quantity: 2 };
    assert_eq!(good.clone().checked(), Ok(good));
    let bad = Request::ReadCoils { address: 1, quantity: 2001 };
    assert_eq!(bad.checked(), Err(ModbusError::ValidationError));
}

#[test]
fn decode_request_rejects_bad_frames() {
    assert_eq!(decode_request(&[]), Err(ModbusError::MalformedFrame));
    assert_eq!(decode_request(&[0x07, 0, 0, 0, 1]), Err(ModbusError::UnexpectedFunctionCode));
    assert_eq!(decode_request(&[0x81, 0x02]), Err(ModbusError::UnexpectedFunctionCode));
    assert_eq!(decode_request(&[0x01, 0, 0, 0]), Err(ModbusError::MalformedFrame));
    assert_eq!(decode_request(&[0x01, 0, 0, 0, 1, 0]), Err(ModbusError::MalformedFrame));
    assert_eq!(decode_request(&[0x05, 0, 5, 0x12, 0x34]), Err(ModbusError::MalformedFrame));
    assert_eq!(
        decode_request(&[0x0F, 0, 0x13, 0, 0x0A, 0x02, 0xCD]),
        Err(ModbusError::MalformedFrame)
    );
    assert_eq!(
        decode_request(&[0x0F, 0, 0x13, 0, 0x0A, 0x01, 0xCD]),
        Err(ModbusError::MalformedFrame)
    );
    assert_eq!(
        decode_request(&[0x10, 0, 1, 0, 2, 0x04, 0, 0x0A, 1]),
        Err(ModbusError::MalformedFrame)
    );
    assert_eq!(
        decode_request(&[0x10, 0, 1, 0, 2, 0x03, 0, 0x0A, 1]),
        Err(ModbusError::MalformedFrame)
    );
    assert_eq!(decode_request(&[0x10, 0, 1, 0, 2]), Err(ModbusError::MalformedFrame));
}

#[test]
fn decode_request_reads_fields() {
    assert_eq!(
        decode_request(&[0x03, 0x00, 0x6B, 0x00, 0x03]),
        Ok(Request::ReadHoldingRegisters { address: 0x6B, quantity: 3 })
    );
    assert_eq!(
        decode_request(&[0x0F, 0x00, 0x13, 0x00, 0x0A, 0x02, 0xCD, 0x01]),
        Ok(Request::WriteMultipleCoils {
            address: 0x13,
            coils: vec![
                Coil::On, Coil::Off, Coil::On, Coil::On, Coil::Off, Coil::Off, Coil::On,
                Coil::On, Coil::On, Coil::Off,
            ],
        })
    );
}

#[test]
fn exception_response_decodes_to_exception() {
    let request = Request::ReadHoldingRegisters { address: 0, quantity: 1 };
    assert_eq!(
        decode_response(&request, &[0x83, 0x02]),
        Err(ModbusError::ModbusException { function: 0x03, code: 0x02 })
    );
}

#[test]
fn exceptions_for_every_function() {
    for request in sample_requests() {
        let function = request.function();
        let bytes = encode_exception(function, 0x04);
        assert_eq!(bytes, vec![function.code() | 0x80, 0x04]);
        assert_eq!(
            decode_response(&request, &bytes),
            Err(ModbusError::ModbusException { function: function.code(), code: 0x04 })
        );
    }
}

#[test]
fn exception_of_wrong_length_is_malformed() {
    let request = Request::ReadHoldingRegisters { address: 0, quantity: 1 };
    assert_eq!(decode_response(&request, &[0x83]), Err(ModbusError::MalformedFrame));
    assert_eq!(decode_response(&request, &[0x83, 0x02, 0x00]), Err(ModbusError::MalformedFrame));
}

#[test]
fn response_to_another_function_is_unexpected() {
    let request = Request::ReadHoldingRegisters { address: 0, quantity: 1 };
    assert_eq!(
        decode_response(&request, &[0x04, 0x02, 0x00, 0x01]),
        Err(ModbusError::UnexpectedFunctionCode)
    );
    assert_eq!(
        decode_response(&request, &[0x84, 0x02]),
        Err(ModbusError::UnexpectedFunctionCode)
    );
    assert_eq!(decode_response(&request, &[0x00]), Err(ModbusError::UnexpectedFunctionCode));
}

#[test]
fn empty_response_is_malformed() {
    let request = Request::ReadCoils { address: 0, quantity: 1 };
    assert_eq!(decode_response(&request, &[]), Err(ModbusError::MalformedFrame));
}

#[test]
fn read_coils_response_decodes() {
    let request = Request::ReadCoils { address: 0x13, quantity: 10 };
    assert_eq!(
        decode_response(&request, &[0x01, 0x02, 0xCD, 0x01]),
        Ok(Response::Coils(vec![
            Coil::On, Coil::Off, Coil::On, Coil::On, Coil::Off, Coil::Off, Coil::On, Coil::On,
            Coil::On, Coil::Off,
        ]))
    );
    let inputs = Request::ReadDiscreteInputs { address: 0, quantity: 3 };
    assert_eq!(
        decode_response(&inputs, &[0x02, 0x01, 0xFA]),
        Ok(Response::Coils(vec![Coil::Off, Coil::On, Coil::Off]))
    );
}

#[test]
fn read_registers_response_decodes() {
    let request = Request::ReadHoldingRegisters { address: 0x6B, quantity: 3 };
    assert_eq!(
        decode_response(&request, &[0x03, 0x06, 0x02, 0x2B, 0x00, 0x00, 0x00, 0x64]),
        Ok(Response::Registers(vec![0x022B, 0x0000, 0x0064]))
    );
    let input = Request::ReadInputRegisters { address: 8, quantity: 1 };
    assert_eq!(
        decode_response(&input, &[0x04, 0x02, 0x00, 0x0A]),
        Ok(Response::Registers(vec![0x000A]))
    );
}

#[test]
fn byte_count_must_match_the_request() {
    let request = Request::ReadHoldingRegisters { address: 0, quantity: 2 };
    assert_eq!(
        decode_response(&request, &[0x03, 0x02, 0x00, 0x01]),
        Err(ModbusError::MalformedFrame)
    );
    assert_eq!(
        decode_response(&request, &[0x03, 0x04, 0x00, 0x01, 0x00]),
        Err(ModbusError::MalformedFrame)
    );
    assert_eq!(
        decode_response(&request, &[0x03, 0x04, 0x00, 0x01, 0x00, 0x02, 0x00]),
        Err(ModbusError::MalformedFrame)
    );
    assert_eq!(decode_response(&request, &[0x03]), Err(ModbusError::MalformedFrame));
    let coils = Request::ReadCoils { address: 0, quantity: 9 };
    assert_eq!(decode_response(&coils, &[0x01, 0x01, 0xFF]), Err(ModbusError::MalformedFrame));
    assert_eq!(
        decode_response(&coils, &[0x01, 0x02, 0xFF]),
        Err(ModbusError::MalformedFrame)
    );
}

#[test]
fn write_echo_is_checked() {
    let single = Request::WriteSingleCoil { address: 5, coil: Coil::On };
    assert_eq!(decode_response(&single, &[0x05, 0x00, 0x05, 0xFF, 0x00]), Ok(Response::Written));
    assert_eq!(
        decode_response(&single, &[0x05, 0x00, 0x05, 0x00, 0x00]),
        Err(ModbusError::MalformedFrame)
    );
    assert_eq!(
        decode_response(&single, &[0x05, 0x00, 0x06, 0xFF, 0x00]),
        Err(ModbusError::MalformedFrame)
    );
    assert_eq!(
        decode_response(&single, &[0x05, 0x00, 0x05, 0xFF]),
        Err(ModbusError::MalformedFrame)
    );
    let register = Request::WriteSingleRegister { address: 1, value: 3 };
    assert_eq!(decode_response(&register, &[0x06, 0, 1, 0, 3]), Ok(Response::Written));
    assert_eq!(
        decode_response(&register, &[0x06, 0, 1, 0, 4]),
        Err(ModbusError::MalformedFrame)
    );
    let many = Request::WriteMultipleRegisters { address: 1, values: vec![0x000A, 0x0102] };
    assert_eq!(decode_response(&many, &[0x10, 0, 1, 0, 2]), Ok(Response::Written));
    assert_eq!(decode_response(&many, &[0x10, 0, 1, 0, 3]), Err(ModbusError::MalformedFrame));
    let coils = Request::WriteMultipleCoils { address: 0x13, coils: vec![Coil::On; 10] };
    assert_eq!(decode_response(&coils, &[0x0F, 0, 0x13, 0, 0x0A]), Ok(Response::Written));
    assert_eq!(
        decode_response(&coils, &[0x0F, 0, 0x13, 0, 0x0A, 0x02]),
        Err(ModbusError::MalformedFrame)
    );
}

#[test]
fn responses_round_trip() {
    for request in sample_requests() {
        let response = match request.function() {
            FunctionCode::ReadCoils | FunctionCode::ReadDiscreteInputs => {
                Response::Coils(pattern(request.count()))
            }
            FunctionCode::ReadHoldingRegisters | FunctionCode::ReadInputRegisters => {
                Response::Registers((0..request.count() as u16).map(|i| i ^ 0xA5A5).collect())
            }
            _ => Response::Written,
        };
        let bytes = encode_response(&request, &response);
        assert_eq!(bytes.len(), response_pdu_len(&request));
        assert_eq!(bytes[0], request.function().code());
        assert_eq!(decode_response(&request, &bytes), Ok(response));
    }
}

#[test]
fn response_lengths() {
    assert_eq!(response_pdu_len(&Request::ReadCoils { address: 0, quantity: 1 }), 3);
    assert_eq!(response_pdu_len(&Request::ReadCoils { address: 0, quantity: 8 }), 3);
    assert_eq!(response_pdu_len(&Request::ReadCoils { address: 0, quantity: 9 }), 4);
    assert_eq!(response_pdu_len(&Request::ReadDiscreteInputs { address: 0, quantity: 2000 }), 252);
    assert_eq!(response_pdu_len(&Request::ReadHoldingRegisters { address: 0, quantity: 125 }), 252);
    assert_eq!(response_pdu_len(&Request::ReadInputRegisters { address: 0, quantity: 1 }), 4);
    assert_eq!(response_pdu_len(&Request::WriteSingleCoil { address: 0, coil: Coil::On }), 5);
    assert_eq!(
        response_pdu_len(&Request::WriteMultipleRegisters { address: 0, values: vec![1, 2] }),
        5
    );
}

#[test]
fn encoded_responses_on_the_wire() {
    let request = Request::ReadCoils { address: 0x13, quantity: 10 };
    let coils = vec![
        Coil::On, Coil::Off, Coil::On, Coil::On, Coil::Off, Coil::Off, Coil::On, Coil::On,
        Coil::On, Coil::Off,
    ];
    assert_eq!(
        encode_response(&request, &Response::Coils(coils)),
        vec![0x01, 0x02, 0xCD, 0x01]
    );
    let registers = Request::ReadInputRegisters { address: 8, quantity: 2 };
    assert_eq!(
        encode_response(&registers, &Response::Registers(vec![0x000A, 0x0102])),
        vec![0x04, 0x04, 0x00, 0x0A, 0x01, 0x02]
    );
    let write = Request::WriteMultipleCoils { address: 0x13, coils: vec![Coil::On; 10] };
    assert_eq!(
        encode_response(&write, &Response::Written),
        vec![0x0F, 0x00, 0x13, 0x00, 0x0A]
    );
}
