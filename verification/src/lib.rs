//! A Modbus protocol engine: the data model, the PDU codec, TCP and RTU
//! framing, and the request/response transaction as a state machine that
//! performs no I/O itself. The caller moves the bytes; every decision about
//! them is made, and proved, here.

pub mod bits;
pub mod client;
pub mod crc;
pub mod frame;
pub mod model;
pub mod pdu;
pub mod relay;
pub mod transaction;
