//! The frame codec: requests and responses as typed values, and the PDU
//! bytes that carry them, independent of the transport.

use crate::bits::{
    bytes_to_registers, high_byte, lemma_pack_unpack_coils, lemma_registers_round_trip,
    lemma_word_of_bytes, low_byte, pack_coils, packed_coils, packed_len, register_bytes,
    registers_of, registers_to_bytes, unpack_coils, unpacked_coils, word,
};
use crate::model::{
    Coil, FunctionCode, ModbusError, ADDRESS_SPACE, MAX_READ_BITS, MAX_READ_REGISTERS,
    MAX_WRITE_COILS, MAX_WRITE_REGISTERS,
};
use vstd::prelude::*;
use vstd::slice::slice_subrange;

verus! {

/// One request, tagged by its function. Each variant carries only the
/// fields that its wire format has.
#[derive(Clone, Debug, PartialEq, Eq)]
pub enum Request {
    ReadCoils { address: u16, quantity: u16 },
    ReadDiscreteInputs { address: u16, quantity: u16 },
    ReadHoldingRegisters { address: u16, quantity: u16 },
    ReadInputRegisters { address: u16, quantity: u16 },
    WriteSingleCoil { address: u16, coil: Coil },
    WriteSingleRegister { address: u16, value: u16 },
    WriteMultipleCoils { address: u16, coils: Vec<Coil> },
    WriteMultipleRegisters { address: u16, values: Vec<u16> },
}

/// The mathematical value of a [`Request`].
pub enum RequestView {
    ReadCoils { address: u16, quantity: u16 },
    ReadDiscreteInputs { address: u16, quantity: u16 },
    ReadHoldingRegisters { address: u16, quantity: u16 },
    ReadInputRegisters { address: u16, quantity: u16 },
    WriteSingleCoil { address: u16, coil: Coil },
    WriteSingleRegister { address: u16, value: u16 },
    WriteMultipleCoils { address: u16, coils: Seq<Coil> },
    WriteMultipleRegisters { address: u16, values: Seq<u16> },
}

/// The payload of a successful response. A write is echoed by the device;
/// the echo is checked and carries nothing to hand on.
#[derive(Clone, Debug, PartialEq, Eq)]
pub enum Response {
    Coils(Vec<Coil>),
    Registers(Vec<u16>),
    Written,
}

/// The mathematical value of a [`Response`].
pub enum ResponseView {
    Coils(Seq<Coil>),
    Registers(Seq<u16>),
    Written,
}

impl View for Request {
    type V = RequestView;

    open spec fn view(&self) -> RequestView {
        match *self {
            Request::ReadCoils { address, quantity } => RequestView::ReadCoils {
                address,
                quantity,
            },
            Request::ReadDiscreteInputs { address, quantity } => RequestView::ReadDiscreteInputs {
                address,
                quantity,
            },
            Request::ReadHoldingRegisters {
                address,
                quantity,
            } => RequestView::ReadHoldingRegisters { address, quantity },
            Request::ReadInputRegisters { address, quantity } => RequestView::ReadInputRegisters {
                address,
                quantity,
            },
            Request::WriteSingleCoil { address, coil } => RequestView::WriteSingleCoil {
                address,
                coil,
            },
            Request::WriteSingleRegister { address, value } => RequestView::WriteSingleRegister {
                address,
                value,
            },
            Request::WriteMultipleCoils { address, coils } => RequestView::WriteMultipleCoils {
                address,
                coils: coils@,
            },
            Request::WriteMultipleRegisters {
                address,
                values,
            } => RequestView::WriteMultipleRegisters { address, values: values@ },
        }
    }
}

impl View for Response {
    type V = ResponseView;

    open spec fn view(&self) -> ResponseView {
        match *self {
            Response::Coils(coils) => ResponseView::Coils(coils@),
            Response::Registers(registers) => ResponseView::Registers(registers@),
            Response::Written => ResponseView::Written,
        }
    }
}

/// Most points that one request of the given function may cover.
pub open spec fn quantity_limit(function: FunctionCode) -> nat {
    match function {
        FunctionCode::ReadCoils => MAX_READ_BITS as nat,
        FunctionCode::ReadDiscreteInputs => MAX_READ_BITS as nat,
        FunctionCode::ReadHoldingRegisters => MAX_READ_REGISTERS as nat,
        FunctionCode::ReadInputRegisters => MAX_READ_REGISTERS as nat,
        FunctionCode::WriteSingleCoil => 1,
        FunctionCode::WriteSingleRegister => 1,
        FunctionCode::WriteMultipleCoils => MAX_WRITE_COILS as nat,
        FunctionCode::WriteMultipleRegisters => MAX_WRITE_REGISTERS as nat,
    }
}

impl RequestView {
    pub open spec fn function(self) -> FunctionCode {
        match self {
            RequestView::ReadCoils { .. } => FunctionCode::ReadCoils,
            RequestView::ReadDiscreteInputs { .. } => FunctionCode::ReadDiscreteInputs,
            RequestView::ReadHoldingRegisters { .. } => FunctionCode::ReadHoldingRegisters,
            RequestView::ReadInputRegisters { .. } => FunctionCode::ReadInputRegisters,
            RequestView::WriteSingleCoil { .. } => FunctionCode::WriteSingleCoil,
            RequestView::WriteSingleRegister { .. } => FunctionCode::WriteSingleRegister,
            RequestView::WriteMultipleCoils { .. } => FunctionCode::WriteMultipleCoils,
            RequestView::WriteMultipleRegisters { .. } => FunctionCode::WriteMultipleRegisters,
        }
    }

    /// The address of the first point that the request covers.
    pub open spec fn address(self) -> u16 {
        match self {
            RequestView::ReadCoils { address, .. } => address,
            RequestView::ReadDiscreteInputs { address, .. } => address,
            RequestView::ReadHoldingRegisters { address, .. } => address,
            RequestView::ReadInputRegisters { address, .. } => address,
            RequestView::WriteSingleCoil { address, .. } => address,
            RequestView::WriteSingleRegister { address, .. } => address,
            RequestView::WriteMultipleCoils { address, .. } => address,
            RequestView::WriteMultipleRegisters { address, .. } => address,
        }
    }

    /// The number of consecutive points that the request covers.
    pub open spec fn count(self) -> nat {
        match self {
            RequestView::ReadCoils { quantity, .. } => quantity as nat,
            RequestView::ReadDiscreteInputs { quantity, .. } => quantity as nat,
            RequestView::ReadHoldingRegisters { quantity, .. } => quantity as nat,
            RequestView::ReadInputRegisters { quantity, .. } => quantity as nat,
            RequestView::WriteSingleCoil { .. } => 1,
            RequestView::WriteSingleRegister { .. } => 1,
            RequestView::WriteMultipleCoils { coils, .. } => coils.len(),
            RequestView::WriteMultipleRegisters { values, .. } => values.len(),
        }
    }

    /// The 16-bit field that follows the address: the quantity, or the
    /// value of a single write.
    pub open spec fn field(self) -> u16 {
        match self {
            RequestView::ReadCoils { quantity, .. } => quantity,
            RequestView::ReadDiscreteInputs { quantity, .. } => quantity,
            RequestView::ReadHoldingRegisters { quantity, .. } => quantity,
            RequestView::ReadInputRegisters { quantity, .. } => quantity,
            RequestView::WriteSingleCoil { coil, .. } => coil.wire_value(),
            RequestView::WriteSingleRegister { value, .. } => value,
            RequestView::WriteMultipleCoils { coils, .. } => coils.len() as u16,
            RequestView::WriteMultipleRegisters { values, .. } => values.len() as u16,
        }
    }

    /// What follows the five opening bytes: for a write of several points a
    /// byte count and the packed values, else nothing.
    pub open spec fn tail(self) -> Seq<u8> {
        match self {
            RequestView::WriteMultipleCoils { coils, .. } => seq![packed_len(coils.len()) as u8]
                + packed_coils(coils),
            RequestView::WriteMultipleRegisters { values, .. } => seq![(2 * values.len()) as u8]
                + register_bytes(values),
            _ => Seq::empty(),
        }
    }

    /// A request is valid when it covers at least one point, no more than
    /// its function allows, and none past the end of the address space.
    pub open spec fn valid(self) -> bool {
        &&& 1 <= self.count() <= quantity_limit(self.function())
        &&& self.address() + self.count() <= ADDRESS_SPACE
    }

    /// Whether the request reads coils or discrete inputs.
    pub open spec fn reads_bits(self) -> bool {
        self.function() == FunctionCode::ReadCoils || self.function()
            == FunctionCode::ReadDiscreteInputs
    }

    /// Whether the request reads holding or input registers.
    pub open spec fn reads_registers(self) -> bool {
        self.function() == FunctionCode::ReadHoldingRegisters || self.function()
            == FunctionCode::ReadInputRegisters
    }
}

/// Function code, address and one more 16-bit field: the five bytes that
/// open every request.
pub open spec fn head_bytes(function: FunctionCode, address: u16, field: u16) -> Seq<u8> {
    seq![
        function.spec_code(),
        high_byte(address),
        low_byte(address),
        high_byte(field),
        low_byte(field),
    ]
}

/// The PDU of a request: the function code, then the function's fields,
/// every 16-bit field high byte first, value arrays behind a byte count.
pub open spec fn request_bytes(request: RequestView) -> Seq<u8> {
    head_bytes(request.function(), request.address(), request.field()) + request.tail()
}

/// The request that a PDU holds, or why it holds none.
pub open spec fn parse_request(bytes: Seq<u8>) -> Result<RequestView, ModbusError> {
    if bytes.len() == 0 {
        Err(ModbusError::MalformedFrame)
    } else if FunctionCode::spec_from_code(bytes[0]).is_none() {
        Err(ModbusError::UnexpectedFunctionCode)
    } else if bytes.len() < 5 {
        Err(ModbusError::MalformedFrame)
    } else {
        let address = word(bytes[1], bytes[2]);
        let field = word(bytes[3], bytes[4]);
        match FunctionCode::spec_from_code(bytes[0]).unwrap() {
            FunctionCode::ReadCoils => if bytes.len() == 5 {
                Ok(RequestView::ReadCoils { address, quantity: field })
            } else {
                Err(ModbusError::MalformedFrame)
            },
            FunctionCode::ReadDiscreteInputs => if bytes.len() == 5 {
                Ok(RequestView::ReadDiscreteInputs { address, quantity: field })
            } else {
                Err(ModbusError::MalformedFrame)
            },
            FunctionCode::ReadHoldingRegisters => if bytes.len() == 5 {
                Ok(RequestView::ReadHoldingRegisters { address, quantity: field })
            } else {
                Err(ModbusError::MalformedFrame)
            },
            FunctionCode::ReadInputRegisters => if bytes.len() == 5 {
                Ok(RequestView::ReadInputRegisters { address, quantity: field })
            } else {
                Err(ModbusError::MalformedFrame)
            },
            FunctionCode::WriteSingleCoil => if bytes.len() == 5 && Coil::of_wire_value(
                field,
            ).is_some() {
                Ok(RequestView::WriteSingleCoil { address, coil: Coil::of_wire_value(field).unwrap() })
            } else {
                Err(ModbusError::MalformedFrame)
            },
            FunctionCode::WriteSingleRegister => if bytes.len() == 5 {
                Ok(RequestView::WriteSingleRegister { address, value: field })
            } else {
                Err(ModbusError::MalformedFrame)
            },
            FunctionCode::WriteMultipleCoils => if bytes.len() >= 6 && bytes[5] == packed_len(
                field as nat,
            ) && bytes.len() == 6 + bytes[5] {
                Ok(
                    RequestView::WriteMultipleCoils {
                        address,
                        coils: unpacked_coils(bytes.skip(6), field as nat),
                    },
                )
            } else {
                Err(ModbusError::MalformedFrame)
            },
            FunctionCode::WriteMultipleRegisters => if bytes.len() >= 6 && bytes[5] == 2 * field
                && bytes.len() == 6 + bytes[5] {
                Ok(
                    RequestView::WriteMultipleRegisters {
                        address,
                        values: registers_of(bytes.skip(6)),
                    },
                )
            } else {
                Err(ModbusError::MalformedFrame)
            },
        }
    }
}

/// Whether a payload is of the kind and size that the request asks for.
pub open spec fn answers(request: RequestView, response: ResponseView) -> bool {
    match response {
        ResponseView::Coils(coils) => request.reads_bits() && coils.len() == request.count(),
        ResponseView::Registers(registers) => request.reads_registers() && registers.len()
            == request.count(),
        ResponseView::Written => !request.reads_bits() && !request.reads_registers(),
    }
}

/// The echo that acknowledges a write: the request's first five bytes.
pub open spec fn write_echo(request: RequestView) -> Seq<u8> {
    head_bytes(request.function(), request.address(), request.field())
}

/// The PDU of a successful response to `request`.
pub open spec fn response_bytes(request: RequestView, response: ResponseView) -> Seq<u8> {
    match response {
        ResponseView::Coils(coils) => seq![
            request.function().spec_code(),
            packed_len(coils.len()) as u8,
        ] + packed_coils(coils),
        ResponseView::Registers(registers) => seq![
            request.function().spec_code(),
            (2 * registers.len()) as u8,
        ] + register_bytes(registers),
        ResponseView::Written => write_echo(request),
    }
}

/// The PDU of an exception response: the function code with its high bit
/// set, then the exception code.
pub open spec fn exception_bytes(function: FunctionCode, code: u8) -> Seq<u8> {
    seq![(function.spec_code() + 0x80) as u8, code]
}

/// Number of bytes in the PDU of a successful response to `request`.
pub open spec fn response_len(request: RequestView) -> nat {
    if request.reads_bits() {
        2 + packed_len(request.count())
    } else if request.reads_registers() {
        2 + 2 * request.count()
    } else {
        5
    }
}

/// What a response PDU says in answer to `request`: the payload, the
/// device's exception, or why the bytes are no answer to it.
pub open spec fn parse_response(request: RequestView, bytes: Seq<u8>) -> Result<
    ResponseView,
    ModbusError,
> {
    let code = request.function().spec_code();
    if bytes.len() == 0 {
        Err(ModbusError::MalformedFrame)
    } else if bytes[0] == code + 0x80 {
        if bytes.len() == 2 {
            Err(ModbusError::ModbusException { function: code, code: bytes[1] })
        } else {
            Err(ModbusError::MalformedFrame)
        }
    } else if bytes[0] != code {
        Err(ModbusError::UnexpectedFunctionCode)
    } else if request.reads_bits() {
        if bytes.len() >= 2 && bytes[1] == packed_len(request.count()) && bytes.len() == 2
            + bytes[1] {
            Ok(ResponseView::Coils(unpacked_coils(bytes.skip(2), request.count())))
        } else {
            Err(ModbusError::MalformedFrame)
        }
    } else if request.reads_registers() {
        if bytes.len() >= 2 && bytes[1] == 2 * request.count() && bytes.len() == 2 + bytes[1] {
            Ok(ResponseView::Registers(registers_of(bytes.skip(2))))
        } else {
            Err(ModbusError::MalformedFrame)
        }
    } else {
        if bytes == write_echo(request) {
            Ok(ResponseView::Written)
        } else {
            Err(ModbusError::MalformedFrame)
        }
    }
}

/// The five opening bytes hold the function code, the address and the
/// field, and each can be read back.
pub proof fn lemma_head_fields(function: FunctionCode, address: u16, field: u16)
    ensures
        head_bytes(function, address, field).len() == 5,
        head_bytes(function, address, field)[0] == function.spec_code(),
        FunctionCode::spec_from_code(head_bytes(function, address, field)[0]) == Some(function),
        word(head_bytes(function, address, field)[1], head_bytes(function, address, field)[2])
            == address,
        word(head_bytes(function, address, field)[3], head_bytes(function, address, field)[4])
            == field,
{
    lemma_word_of_bytes(address, 0, 0);
    lemma_word_of_bytes(field, 0, 0);
}

proof fn lemma_fixed_round_trip(request: RequestView)
    requires
        request.function() != FunctionCode::WriteMultipleCoils,
        request.function() != FunctionCode::WriteMultipleRegisters,
    ensures
        parse_request(request_bytes(request)) == Ok::<RequestView, ModbusError>(request),
{
    lemma_head_fields(request.function(), request.address(), request.field());
    assert(request_bytes(request) =~= head_bytes(
        request.function(),
        request.address(),
        request.field(),
    ));
    if let RequestView::WriteSingleCoil { coil, .. } = request {
        crate::model::lemma_coil_wire_round_trip(coil);
    }
}

proof fn lemma_coils_round_trip(address: u16, coils: Seq<Coil>)
    requires
        1 <= coils.len() <= 1968,
    ensures
        parse_request(request_bytes(RequestView::WriteMultipleCoils { address, coils })) == Ok::<
            RequestView,
            ModbusError,
        >(RequestView::WriteMultipleCoils { address, coils }),
{
    let request = RequestView::WriteMultipleCoils { address, coils };
    let head = head_bytes(FunctionCode::WriteMultipleCoils, address, coils.len() as u16);
    let bytes = request_bytes(request);
    lemma_head_fields(FunctionCode::WriteMultipleCoils, address, coils.len() as u16);
    lemma_pack_unpack_coils(coils);
    assert(bytes.len() == 6 + packed_len(coils.len()));
    assert forall|i: int| 0 <= i < 5 implies bytes[i] == head[i] by {}
    assert(bytes[5] == packed_len(coils.len()) as u8);
    assert(bytes.skip(6) =~= packed_coils(coils));
}

proof fn lemma_values_round_trip(address: u16, values: Seq<u16>)
    requires
        1 <= values.len() <= 123,
    ensures
        parse_request(request_bytes(RequestView::WriteMultipleRegisters { address, values }))
            == Ok::<RequestView, ModbusError>(
            RequestView::WriteMultipleRegisters { address, values },
        ),
{
    let request = RequestView::WriteMultipleRegisters { address, values };
    let head = head_bytes(FunctionCode::WriteMultipleRegisters, address, values.len() as u16);
    let bytes = request_bytes(request);
    lemma_head_fields(FunctionCode::WriteMultipleRegisters, address, values.len() as u16);
    lemma_registers_round_trip(values);
    assert(bytes.len() == 6 + 2 * values.len());
    assert forall|i: int| 0 <= i < 5 implies bytes[i] == head[i] by {}
    assert(bytes[5] == (2 * values.len()) as u8);
    assert(bytes.skip(6) =~= register_bytes(values));
}

/// Decoding the encoding of a valid request gives that request.
pub proof fn lemma_request_round_trip(request: RequestView)
    requires
        request.valid(),
    ensures
        parse_request(request_bytes(request)) == Ok::<RequestView, ModbusError>(request),
{
    match request {
        RequestView::WriteMultipleCoils { address, coils } => {
            lemma_coils_round_trip(address, coils);
        },
        RequestView::WriteMultipleRegisters { address, values } => {
            lemma_values_round_trip(address, values);
        },
        _ => {
            lemma_fixed_round_trip(request);
        },
    }
}

/// Decoding the encoding of a payload, against a valid request that it
/// answers, gives that payload.
pub proof fn lemma_response_round_trip(request: RequestView, response: ResponseView)
    requires
        request.valid(),
        answers(request, response),
    ensures
        parse_response(request, response_bytes(request, response)) == Ok::<
            ResponseView,
            ModbusError,
        >(response),
{
    let bytes = response_bytes(request, response);
    lemma_head_fields(request.function(), request.address(), request.field());
    match response {
        ResponseView::Coils(coils) => {
            lemma_pack_unpack_coils(coils);
            assert(bytes.skip(2) =~= packed_coils(coils));
        },
        ResponseView::Registers(registers) => {
            lemma_registers_round_trip(registers);
            assert(bytes.skip(2) =~= register_bytes(registers));
        },
        ResponseView::Written => {},
    }
}

/// An exception response to a request decodes to that exception, with the
/// request's function code and the device's exception code, and to no other
/// kind of error.
pub proof fn lemma_exception_decodes(request: RequestView, code: u8)
    ensures
        parse_response(request, exception_bytes(request.function(), code)) == Err::<
            ResponseView,
            ModbusError,
        >(ModbusError::ModbusException { function: request.function().spec_code(), code }),
{
}

/// A PDU that decodes to a payload has the length that the request alone
/// foretells, and the payload answers the request.
pub proof fn lemma_response_shape(request: RequestView, bytes: Seq<u8>)
    requires
        parse_response(request, bytes).is_ok(),
    ensures
        bytes.len() == response_len(request),
        answers(request, parse_response(request, bytes).unwrap()),
{
    lemma_head_fields(request.function(), request.address(), request.field());
}

/// Most points that one request of the given function may cover.
pub fn max_quantity(function: FunctionCode) -> (limit: u16)
    ensures
        limit == quantity_limit(function),
{
    match function {
        FunctionCode::ReadCoils => MAX_READ_BITS,
        FunctionCode::ReadDiscreteInputs => MAX_READ_BITS,
        FunctionCode::ReadHoldingRegisters => MAX_READ_REGISTERS,
        FunctionCode::ReadInputRegisters => MAX_READ_REGISTERS,
        FunctionCode::WriteSingleCoil => 1,
        FunctionCode::WriteSingleRegister => 1,
        FunctionCode::WriteMultipleCoils => MAX_WRITE_COILS,
        FunctionCode::WriteMultipleRegisters => MAX_WRITE_REGISTERS,
    }
}

impl Request {
    pub fn function(&self) -> (function: FunctionCode)
        ensures
            function == self@.function(),
    {
        match self {
            Request::ReadCoils { .. } => FunctionCode::ReadCoils,
            Request::ReadDiscreteInputs { .. } => FunctionCode::ReadDiscreteInputs,
            Request::ReadHoldingRegisters { .. } => FunctionCode::ReadHoldingRegisters,
            Request::ReadInputRegisters { .. } => FunctionCode::ReadInputRegisters,
            Request::WriteSingleCoil { .. } => FunctionCode::WriteSingleCoil,
            Request::WriteSingleRegister { .. } => FunctionCode::WriteSingleRegister,
            Request::WriteMultipleCoils { .. } => FunctionCode::WriteMultipleCoils,
            Request::WriteMultipleRegisters { .. } => FunctionCode::WriteMultipleRegisters,
        }
    }

    pub fn address(&self) -> (address: u16)
        ensures
            address == self@.address(),
    {
        match self {
            Request::ReadCoils { address, .. } => *address,
            Request::ReadDiscreteInputs { address, .. } => *address,
            Request::ReadHoldingRegisters { address, .. } => *address,
            Request::ReadInputRegisters { address, .. } => *address,
            Request::WriteSingleCoil { address, .. } => *address,
            Request::WriteSingleRegister { address, .. } => *address,
            Request::WriteMultipleCoils { address, .. } => *address,
            Request::WriteMultipleRegisters { address, .. } => *address,
        }
    }

    /// The number of consecutive points that the request covers.
    pub fn count(&self) -> (count: usize)
        ensures
            count == self@.count(),
    {
        match self {
            Request::ReadCoils { quantity, .. } => *quantity as usize,
            Request::ReadDiscreteInputs { quantity, .. } => *quantity as usize,
            Request::ReadHoldingRegisters { quantity, .. } => *quantity as usize,
            Request::ReadInputRegisters { quantity, .. } => *quantity as usize,
            Request::WriteSingleCoil { .. } => 1,
            Request::WriteSingleRegister { .. } => 1,
            Request::WriteMultipleCoils { coils, .. } => coils.len(),
            Request::WriteMultipleRegisters { values, .. } => values.len(),
        }
    }

    fn field(&self) -> (field: u16)
        ensures
            field == self@.field(),
    {
        match self {
            Request::ReadCoils { quantity, .. } => *quantity,
            Request::ReadDiscreteInputs { quantity, .. } => *quantity,
            Request::ReadHoldingRegisters { quantity, .. } => *quantity,
            Request::ReadInputRegisters { quantity, .. } => *quantity,
            Request::WriteSingleCoil { coil, .. } => coil.to_wire(),
            Request::WriteSingleRegister { value, .. } => *value,
            Request::WriteMultipleCoils { coils, .. } => coils.len() as u16,
            Request::WriteMultipleRegisters { values, .. } => values.len() as u16,
        }
    }

    /// Whether the request is within the protocol's limits.
    pub fn is_valid(&self) -> (valid: bool)
        ensures
            valid == self@.valid(),
    {
        let count = self.count();
        let limit = max_quantity(self.function()) as usize;
        1 <= count && count <= limit && self.address() as usize + count <= ADDRESS_SPACE as usize
    }

    /// Hands a request on if it is within the protocol's limits and refuses
    /// it with `ValidationError` if it is not.
    pub fn checked(self) -> (request: Result<Request, ModbusError>)
        ensures
            self@.valid() ==> request == Ok::<Request, ModbusError>(self),
            !self@.valid() ==> request == Err::<Request, ModbusError>(ModbusError::ValidationError),
    {
        if self.is_valid() {
            Ok(self)
        } else {
            Err(ModbusError::ValidationError)
        }
    }
}

fn push_word(out: &mut Vec<u8>, value: u16)
    ensures
        final(out)@ == old(out)@.push(high_byte(value)).push(low_byte(value)),
{
    out.push((value / 256) as u8);
    out.push((value % 256) as u8);
}

fn read_word(bytes: &[u8], at: usize) -> (value: u16)
    requires
        at + 1 < bytes@.len(),
    ensures
        value == word(bytes@[at as int], bytes@[at + 1]),
{
    (bytes[at] as u16) * 256 + (bytes[at + 1] as u16)
}

fn encode_head(function: FunctionCode, address: u16, field: u16) -> (bytes: Vec<u8>)
    ensures
        bytes@ == head_bytes(function, address, field),
{
    let mut out: Vec<u8> = Vec::new();
    out.push(function.code());
    push_word(&mut out, address);
    push_word(&mut out, field);
    proof {
        assert(out@ =~= head_bytes(function, address, field));
    }
    out
}

/// Encodes a valid request as its PDU.
pub fn encode_request(request: &Request) -> (bytes: Vec<u8>)
    requires
        request@.valid(),
    ensures
        bytes@ == request_bytes(request@),
        5 <= bytes@.len() <= 252,
{
    let mut out = encode_head(request.function(), request.address(), request.field());
    match request {
        Request::WriteMultipleCoils { coils, .. } => {
            let mut data = pack_coils(coils.as_slice());
            out.push(data.len() as u8);
            out.append(&mut data);
        },
        Request::WriteMultipleRegisters { values, .. } => {
            let mut data = registers_to_bytes(values.as_slice());
            out.push(data.len() as u8);
            out.append(&mut data);
        },
        _ => {},
    }
    proof {
        assert(out@ =~= request_bytes(request@));
    }
    out
}

/// Decodes a request PDU. The error is `MalformedFrame` for an empty PDU,
/// a wrong length or byte count, or a coil value that is neither on nor
/// off, and `UnexpectedFunctionCode` for a function this engine does not
/// speak.
pub fn decode_request(bytes: &[u8]) -> (request: Result<Request, ModbusError>)
    ensures
        match request {
            Ok(r) => parse_request(bytes@) == Ok::<RequestView, ModbusError>(r@),
            Err(e) => parse_request(bytes@) == Err::<RequestView, ModbusError>(e),
        },
{
    if bytes.len() == 0 {
        return Err(ModbusError::MalformedFrame);
    }
    let function = match FunctionCode::from_code(bytes[0]) {
        Some(function) => function,
        None => {
            return Err(ModbusError::UnexpectedFunctionCode);
        },
    };
    if bytes.len() < 5 {
        return Err(ModbusError::MalformedFrame);
    }
    let address = read_word(bytes, 1);
    let field = read_word(bytes, 3);
    match function {
        FunctionCode::ReadCoils => if bytes.len() == 5 {
            Ok(Request::ReadCoils { address, quantity: field })
        } else {
            Err(ModbusError::MalformedFrame)
        },
        FunctionCode::ReadDiscreteInputs => if bytes.len() == 5 {
            Ok(Request::ReadDiscreteInputs { address, quantity: field })
        } else {
            Err(ModbusError::MalformedFrame)
        },
        FunctionCode::ReadHoldingRegisters => if bytes.len() == 5 {
            Ok(Request::ReadHoldingRegisters { address, quantity: field })
        } else {
            Err(ModbusError::MalformedFrame)
        },
        FunctionCode::ReadInputRegisters => if bytes.len() == 5 {
            Ok(Request::ReadInputRegisters { address, quantity: field })
        } else {
            Err(ModbusError::MalformedFrame)
        },
        FunctionCode::WriteSingleCoil => {
            if bytes.len() != 5 {
                return Err(ModbusError::MalformedFrame);
            }
            match Coil::from_wire(field) {
                Some(coil) => Ok(Request::WriteSingleCoil { address, coil }),
                None => Err(ModbusError::MalformedFrame),
            }
        },
        FunctionCode::WriteSingleRegister => if bytes.len() == 5 {
            Ok(Request::WriteSingleRegister { address, value: field })
        } else {
            Err(ModbusError::MalformedFrame)
        },
        FunctionCode::WriteMultipleCoils => {
            if bytes.len() < 6 || bytes[5] as usize != (field as usize + 7) / 8 || bytes.len() != 6
                + bytes[5] as usize {
                return Err(ModbusError::MalformedFrame);
            }
            match unpack_coils(slice_subrange(bytes, 6, bytes.len()), field) {
                Ok(coils) => Ok(Request::WriteMultipleCoils { address, coils }),
                Err(e) => Err(e),
            }
        },
        FunctionCode::WriteMultipleRegisters => {
            if bytes.len() < 6 || bytes[5] as usize != 2 * (field as usize) || bytes.len() != 6
                + bytes[5] as usize {
                return Err(ModbusError::MalformedFrame);
            }
            match bytes_to_registers(slice_subrange(bytes, 6, bytes.len())) {
                Ok(values) => Ok(Request::WriteMultipleRegisters { address, values }),
                Err(e) => Err(e),
            }
        },
    }
}

/// Number of bytes in the PDU of a successful response to a valid request:
/// what a reader of a byte stream has to wait for.
pub fn response_pdu_len(request: &Request) -> (len: usize)
    requires
        request@.valid(),
    ensures
        len == response_len(request@),
        2 <= len <= 252,
{
    match request {
        Request::ReadCoils { quantity, .. } => 2 + (*quantity as usize + 7) / 8,
        Request::ReadDiscreteInputs { quantity, .. } => 2 + (*quantity as usize + 7) / 8,
        Request::ReadHoldingRegisters { quantity, .. } => 2 + 2 * (*quantity as usize),
        Request::ReadInputRegisters { quantity, .. } => 2 + 2 * (*quantity as usize),
        _ => 5,
    }
}

/// Encodes the successful response to a valid request, as a device would.
pub fn encode_response(request: &Request, response: &Response) -> (bytes: Vec<u8>)
    requires
        request@.valid(),
        answers(request@, response@),
    ensures
        bytes@ == response_bytes(request@, response@),
        bytes@.len() == response_len(request@),
{
    match response {
        Response::Coils(coils) => {
            let mut out: Vec<u8> = Vec::new();
            let mut data = pack_coils(coils.as_slice());
            out.push(request.function().code());
            out.push(data.len() as u8);
            out.append(&mut data);
            proof {
                assert(out@ =~= response_bytes(request@, response@));
            }
            out
        },
        Response::Registers(registers) => {
            let mut out: Vec<u8> = Vec::new();
            let mut data = registers_to_bytes(registers.as_slice());
            out.push(request.function().code());
            out.push(data.len() as u8);
            out.append(&mut data);
            proof {
                assert(out@ =~= response_bytes(request@, response@));
            }
            out
        },
        Response::Written => encode_head(request.function(), request.address(), request.field()),
    }
}

/// Encodes an exception response, as a device would.
pub fn encode_exception(function: FunctionCode, code: u8) -> (bytes: Vec<u8>)
    ensures
        bytes@ == exception_bytes(function, code),
{
    let mut out: Vec<u8> = Vec::new();
    out.push(function.code() + 0x80);
    out.push(code);
    proof {
        assert(out@ =~= exception_bytes(function, code));
    }
    out
}

fn is_echo(request: &Request, bytes: &[u8]) -> (same: bool)
    ensures
        same == (bytes@ == write_echo(request@)),
{
    let echo = encode_head(request.function(), request.address(), request.field());
    if bytes.len() != 5 {
        return false;
    }
    let same = bytes[0] == echo[0] && bytes[1] == echo[1] && bytes[2] == echo[2] && bytes[3]
        == echo[3] && bytes[4] == echo[4];
    proof {
        if same {
            assert(bytes@ =~= echo@);
        }
    }
    same
}

/// Decodes a response PDU against the request that it should answer.
///
/// The payload comes back only from a PDU that opens with the request's
/// function code and whose byte count and length are those that the
/// request calls for; padding bits behind the last coil are ignored. A
/// well-formed exception response gives `ModbusException` with the
/// request's function code and the device's exception code. Another
/// function code gives `UnexpectedFunctionCode`; everything else is a
/// `MalformedFrame`.
pub fn decode_response(request: &Request, bytes: &[u8]) -> (response: Result<
    Response,
    ModbusError,
>)
    ensures
        match response {
            Ok(r) => parse_response(request@, bytes@) == Ok::<ResponseView, ModbusError>(r@),
            Err(e) => parse_response(request@, bytes@) == Err::<ResponseView, ModbusError>(e),
        },
{
    let code = request.function().code();
    if bytes.len() == 0 {
        return Err(ModbusError::MalformedFrame);
    }
    if bytes[0] == code + 0x80 {
        if bytes.len() == 2 {
            return Err(ModbusError::ModbusException { function: code, code: bytes[1] });
        }
        return Err(ModbusError::MalformedFrame);
    }
    if bytes[0] != code {
        return Err(ModbusError::UnexpectedFunctionCode);
    }
    match request {
        Request::ReadCoils { quantity, .. } | Request::ReadDiscreteInputs { quantity, .. } => {
            let need = (*quantity as usize + 7) / 8;
            if bytes.len() < 2 || bytes[1] as usize != need || bytes.len() != 2 + need {
                return Err(ModbusError::MalformedFrame);
            }
            match unpack_coils(slice_subrange(bytes, 2, bytes.len()), *quantity) {
                Ok(coils) => Ok(Response::Coils(coils)),
                Err(e) => Err(e),
            }
        },
        Request::ReadHoldingRegisters { quantity, .. } | Request::ReadInputRegisters {
            quantity,
            ..
        } => {
            let need = 2 * (*quantity as usize);
            if bytes.len() < 2 || bytes[1] as usize != need || bytes.len() != 2 + need {
                return Err(ModbusError::MalformedFrame);
            }
            match bytes_to_registers(slice_subrange(bytes, 2, bytes.len())) {
                Ok(registers) => Ok(Response::Registers(registers)),
                Err(e) => Err(e),
            }
        },
        _ => {
            if is_echo(request, bytes) {
                Ok(Response::Written)
            } else {
                Err(ModbusError::MalformedFrame)
            }
        },
    }
}

}
