//! The Modbus data model: coils, function codes, per-function quantity
//! limits, the error taxonomy and the serial line parameters.

use vstd::prelude::*;

verus! {

/// Most coils or discrete inputs that one read request may cover.
pub const MAX_READ_BITS: u16 = 2000;

/// Most registers that one read request may cover.
pub const MAX_READ_REGISTERS: u16 = 125;

/// Most coils that one write request may carry.
pub const MAX_WRITE_COILS: u16 = 1968;

/// Most registers that one write request may carry.
pub const MAX_WRITE_REGISTERS: u16 = 123;

/// Number of addressable points of each kind on a device.
pub const ADDRESS_SPACE: u32 = 65536;

/// A single-bit point: a coil or a discrete input.
#[derive(Clone, Copy, Debug, PartialEq, Eq, Structural)]
pub enum Coil {
    On,
    Off,
}

impl Coil {
    /// The 16-bit value that stands for this state in a single-coil write.
    pub open spec fn wire_value(self) -> u16 {
        match self {
            Coil::On => 0xFF00u16,
            Coil::Off => 0x0000u16,
        }
    }

    /// The state that a 16-bit wire value stands for, if any.
    pub open spec fn of_wire_value(value: u16) -> Option<Coil> {
        if value == 0xFF00u16 {
            Some(Coil::On)
        } else if value == 0x0000u16 {
            Some(Coil::Off)
        } else {
            None
        }
    }

    pub fn to_wire(self) -> (value: u16)
        ensures
            value == self.wire_value(),
    {
        match self {
            Coil::On => 0xFF00,
            Coil::Off => 0x0000,
        }
    }

    /// Reads a state back from the wire. Any value but 0xFF00 and 0x0000 is
    /// a protocol violation and gives `None`.
    pub fn from_wire(value: u16) -> (coil: Option<Coil>)
        ensures
            coil == Coil::of_wire_value(value),
    {
        if value == 0xFF00 {
            Some(Coil::On)
        } else if value == 0x0000 {
            Some(Coil::Off)
        } else {
            None
        }
    }

    pub fn from_bool(on: bool) -> (coil: Coil)
        ensures
            coil == (if on { Coil::On } else { Coil::Off }),
    {
        if on {
            Coil::On
        } else {
            Coil::Off
        }
    }

    pub fn is_on(self) -> (on: bool)
        ensures
            on == (self == Coil::On),
    {
        match self {
            Coil::On => true,
            Coil::Off => false,
        }
    }
}

/// The wire value of a coil names that coil and no other.
pub proof fn lemma_coil_wire_round_trip(coil: Coil)
    ensures
        Coil::of_wire_value(coil.wire_value()) == Some(coil),
{
}

/// The functions this engine speaks.
#[derive(Clone, Copy, Debug, PartialEq, Eq, Structural)]
pub enum FunctionCode {
    ReadCoils,
    ReadDiscreteInputs,
    ReadHoldingRegisters,
    ReadInputRegisters,
    WriteSingleCoil,
    WriteSingleRegister,
    WriteMultipleCoils,
    WriteMultipleRegisters,
}

impl FunctionCode {
    /// The byte that opens a PDU of this function.
    pub open spec fn spec_code(self) -> u8 {
        match self {
            FunctionCode::ReadCoils => 0x01u8,
            FunctionCode::ReadDiscreteInputs => 0x02u8,
            FunctionCode::ReadHoldingRegisters => 0x03u8,
            FunctionCode::ReadInputRegisters => 0x04u8,
            FunctionCode::WriteSingleCoil => 0x05u8,
            FunctionCode::WriteSingleRegister => 0x06u8,
            FunctionCode::WriteMultipleCoils => 0x0Fu8,
            FunctionCode::WriteMultipleRegisters => 0x10u8,
        }
    }

    /// The function that a byte names, if it names one.
    pub open spec fn spec_from_code(code: u8) -> Option<FunctionCode> {
        if code == 0x01u8 {
            Some(FunctionCode::ReadCoils)
        } else if code == 0x02u8 {
            Some(FunctionCode::ReadDiscreteInputs)
        } else if code == 0x03u8 {
            Some(FunctionCode::ReadHoldingRegisters)
        } else if code == 0x04u8 {
            Some(FunctionCode::ReadInputRegisters)
        } else if code == 0x05u8 {
            Some(FunctionCode::WriteSingleCoil)
        } else if code == 0x06u8 {
            Some(FunctionCode::WriteSingleRegister)
        } else if code == 0x0Fu8 {
            Some(FunctionCode::WriteMultipleCoils)
        } else if code == 0x10u8 {
            Some(FunctionCode::WriteMultipleRegisters)
        } else {
            None
        }
    }

    #[verifier::when_used_as_spec(spec_code)]
    pub fn code(self) -> (code: u8)
        ensures
            code == self.spec_code(),
            code < 0x80,
    {
        match self {
            FunctionCode::ReadCoils => 0x01,
            FunctionCode::ReadDiscreteInputs => 0x02,
            FunctionCode::ReadHoldingRegisters => 0x03,
            FunctionCode::ReadInputRegisters => 0x04,
            FunctionCode::WriteSingleCoil => 0x05,
            FunctionCode::WriteSingleRegister => 0x06,
            FunctionCode::WriteMultipleCoils => 0x0F,
            FunctionCode::WriteMultipleRegisters => 0x10,
        }
    }

    pub fn from_code(code: u8) -> (function: Option<FunctionCode>)
        ensures
            function == FunctionCode::spec_from_code(code),
    {
        if code == 0x01 {
            Some(FunctionCode::ReadCoils)
        } else if code == 0x02 {
            Some(FunctionCode::ReadDiscreteInputs)
        } else if code == 0x03 {
            Some(FunctionCode::ReadHoldingRegisters)
        } else if code == 0x04 {
            Some(FunctionCode::ReadInputRegisters)
        } else if code == 0x05 {
            Some(FunctionCode::WriteSingleCoil)
        } else if code == 0x06 {
            Some(FunctionCode::WriteSingleRegister)
        } else if code == 0x0F {
            Some(FunctionCode::WriteMultipleCoils)
        } else if code == 0x10 {
            Some(FunctionCode::WriteMultipleRegisters)
        } else {
            None
        }
    }
}

/// A function's code names that function and no other, and a byte that
/// names a function is that function's code.
pub proof fn lemma_function_code_round_trip(function: FunctionCode, code: u8)
    ensures
        FunctionCode::spec_from_code(function.spec_code()) == Some(function),
        FunctionCode::spec_from_code(code) == Some(function) ==> function.spec_code() == code,
{
}

/// What can go wrong in one exchange. Each kind is distinct and none is
/// folded into another.
#[derive(Clone, Copy, Debug, PartialEq, Eq, Structural)]
pub enum ModbusError {
    /// The caller asked for an address or quantity outside the protocol's
    /// limits; nothing was sent.
    ValidationError,
    /// The connection was refused or reset, or I/O failed.
    TransportError,
    /// No complete response arrived before the deadline.
    TimeoutError,
    /// The bytes received do not form a valid frame.
    MalformedFrame,
    /// The response answers a function that was not asked.
    UnexpectedFunctionCode,
    /// A TCP response carries another transaction identifier than the
    /// outstanding request.
    TransactionMismatch,
    /// The device answered with a well-formed exception response.
    ModbusException { function: u8, code: u8 },
}

/// The read deadline that applies when none is chosen, in milliseconds.
pub const DEFAULT_TIMEOUT_MS: u64 = 5000;

/// The line speed that applies when none is chosen, in bits per second.
pub const DEFAULT_BAUD_RATE: u32 = 115200;

/// Number of data bits in a character on the serial line.
#[derive(Clone, Copy, Debug, PartialEq, Eq, Structural)]
pub enum DataBits {
    Five,
    Six,
    Seven,
    Eight,
}

#[derive(Clone, Copy, Debug, PartialEq, Eq, Structural)]
pub enum Parity {
    NoParity,
    Odd,
    Even,
}

#[derive(Clone, Copy, Debug, PartialEq, Eq, Structural)]
pub enum StopBits {
    One,
    Two,
}

#[derive(Clone, Copy, Debug, PartialEq, Eq, Structural)]
pub enum FlowControl {
    NoFlow,
    Software,
    Hardware,
}

/// The parameters of a serial line. The engine takes them as given and
/// hands them to whoever opens the line.
#[derive(Clone, Copy, Debug, PartialEq, Eq, Structural)]
pub struct SerialConfig {
    pub baud_rate: u32,
    pub data_bits: DataBits,
    pub parity: Parity,
    pub stop_bits: StopBits,
    pub flow_control: FlowControl,
    /// The hard deadline for each read, in milliseconds.
    pub timeout_ms: u64,
}

impl Default for SerialConfig {
    /// 115200 baud, eight data bits, no parity, one stop bit, no flow
    /// control, and five seconds for each read.
    fn default() -> (config: SerialConfig)
        ensures
            config == (SerialConfig {
                baud_rate: 115200,
                data_bits: DataBits::Eight,
                parity: Parity::NoParity,
                stop_bits: StopBits::One,
                flow_control: FlowControl::NoFlow,
                timeout_ms: 5000,
            }),
    {
        SerialConfig {
            baud_rate: DEFAULT_BAUD_RATE,
            data_bits: DataBits::Eight,
            parity: Parity::NoParity,
            stop_bits: StopBits::One,
            flow_control: FlowControl::NoFlow,
            timeout_ms: DEFAULT_TIMEOUT_MS,
        }
    }
}

}
