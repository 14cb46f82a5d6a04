//! The client facade: one operation for each function, each checked
//! against the protocol's limits before anything is framed.

use crate::model::{Coil, ModbusError, DEFAULT_TIMEOUT_MS};
use crate::pdu::{Request, RequestView};
use crate::transaction::{Framing, Phase, Transaction, TransactionView};
use vstd::prelude::*;
use vstd::slice::slice_to_vec;

verus! {

/// One end of a connection to Modbus devices. It owns the numbering of
/// transactions and the policy for timeouts; the connection itself belongs
/// to whoever moves the bytes.
#[derive(Debug, PartialEq, Eq)]
pub struct Client {
    framing: Framing,
    unit_id: u8,
    last_transaction_id: u16,
    max_retries: u8,
    timeout_ms: u64,
}

/// The mathematical value of a [`Client`].
pub struct ClientView {
    pub framing: Framing,
    /// The device that requests go to.
    pub unit_id: u8,
    /// The identifier given to the latest TCP transaction; zero before the
    /// first.
    pub last_transaction_id: u16,
    /// How many times a request is sent again after a timeout.
    pub max_retries: u8,
    /// The deadline for each read, in milliseconds.
    pub timeout_ms: u64,
}

impl View for Client {
    type V = ClientView;

    closed spec fn view(&self) -> ClientView {
        ClientView {
            framing: self.framing,
            unit_id: self.unit_id,
            last_transaction_id: self.last_transaction_id,
            max_retries: self.max_retries,
            timeout_ms: self.timeout_ms,
        }
    }
}

/// The identifier after `id`: one more, and zero after 65535.
pub open spec fn next_transaction_id(id: u16) -> u16 {
    if id == 0xFFFFu16 {
        0u16
    } else {
        (id + 1) as u16
    }
}

/// The mathematical value of a started transaction, or of the refusal to
/// start one.
pub open spec fn started_view(started: Result<Transaction, ModbusError>) -> Result<
    TransactionView,
    ModbusError,
> {
    match started {
        Ok(transaction) => Ok(transaction@),
        Err(e) => Err(e),
    }
}

impl ClientView {
    /// The client after it has given out one more transaction. Only TCP
    /// numbers its transactions; a serial line has none on the wire.
    pub open spec fn advanced(self) -> ClientView {
        match self.framing {
            Framing::Tcp => ClientView {
                last_transaction_id: next_transaction_id(self.last_transaction_id),
                ..self
            },
            Framing::Rtu => self,
        }
    }

    /// The transaction that this client starts for a request.
    pub open spec fn transaction_for(self, request: RequestView) -> TransactionView {
        TransactionView {
            framing: self.framing,
            transaction_id: self.advanced().last_transaction_id,
            unit_id: self.unit_id,
            request,
            retries_left: self.max_retries,
            timeout_ms: self.timeout_ms,
            phase: Phase::Sending,
            head: Seq::empty(),
        }
    }

    /// What asking for `request` does: a valid request advances the client
    /// and starts a transaction; any other is refused with
    /// `ValidationError` and leaves the client as it was.
    pub open spec fn begin(self, request: RequestView) -> (
        ClientView,
        Result<TransactionView, ModbusError>,
    ) {
        if request.valid() {
            (self.advanced(), Ok(self.transaction_for(request)))
        } else {
            (self, Err(ModbusError::ValidationError))
        }
    }
}

impl Client {
    /// A client for one unit, with one attempt for each request and five
    /// seconds for each read.
    pub fn new(framing: Framing, unit_id: u8) -> (client: Client)
        ensures
            client@ == (ClientView {
                framing,
                unit_id,
                last_transaction_id: 0,
                max_retries: 0,
                timeout_ms: 5000,
            }),
    {
        Client {
            framing,
            unit_id,
            last_transaction_id: 0,
            max_retries: 0,
            timeout_ms: DEFAULT_TIMEOUT_MS,
        }
    }

    /// The same client with another bound on sending again after a timeout.
    pub fn with_retries(self, max_retries: u8) -> (client: Client)
        ensures
            client@ == (ClientView { max_retries, ..self@ }),
    {
        Client {
            framing: self.framing,
            unit_id: self.unit_id,
            last_transaction_id: self.last_transaction_id,
            max_retries,
            timeout_ms: self.timeout_ms,
        }
    }

    /// The same client with another deadline for each read.
    pub fn with_timeout_ms(self, timeout_ms: u64) -> (client: Client)
        ensures
            client@ == (ClientView { timeout_ms, ..self@ }),
    {
        Client {
            framing: self.framing,
            unit_id: self.unit_id,
            last_transaction_id: self.last_transaction_id,
            max_retries: self.max_retries,
            timeout_ms,
        }
    }

    /// Turns the client to another unit.
    pub fn set_unit_id(&mut self, unit_id: u8)
        ensures
            final(self)@ == (ClientView { unit_id, ..old(self)@ }),
    {
        self.unit_id = unit_id;
    }

    pub fn framing(&self) -> (framing: Framing)
        ensures
            framing == self@.framing,
    {
        self.framing
    }

    pub fn unit_id(&self) -> (unit_id: u8)
        ensures
            unit_id == self@.unit_id,
    {
        self.unit_id
    }

    pub fn last_transaction_id(&self) -> (id: u16)
        ensures
            id == self@.last_transaction_id,
    {
        self.last_transaction_id
    }

    pub fn max_retries(&self) -> (max_retries: u8)
        ensures
            max_retries == self@.max_retries,
    {
        self.max_retries
    }

    pub fn timeout_ms(&self) -> (timeout_ms: u64)
        ensures
            timeout_ms == self@.timeout_ms,
    {
        self.timeout_ms
    }

    /// Starts the exchange for a request, or refuses the request before
    /// anything is framed or sent.
    pub fn begin(&mut self, request: Request) -> (started: Result<Transaction, ModbusError>)
        ensures
            (final(self)@, started_view(started)) == old(self)@.begin(request@),
    {
        if !request.is_valid() {
            return Err(ModbusError::ValidationError);
        }
        match self.framing {
            Framing::Tcp => {
                self.last_transaction_id = if self.last_transaction_id == 0xFFFF {
                    0
                } else {
                    self.last_transaction_id + 1
                };
            },
            Framing::Rtu => {},
        }
        Ok(
            Transaction::start(
                self.framing,
                self.last_transaction_id,
                self.unit_id,
                request,
                self.max_retries,
                self.timeout_ms,
            ),
        )
    }

    /// Reads `quantity` coils from `address` on.
    pub fn read_coils(&mut self, address: u16, quantity: u16) -> (started: Result<
        Transaction,
        ModbusError,
    >)
        ensures
            (final(self)@, started_view(started)) == old(self)@.begin(
                RequestView::ReadCoils { address, quantity },
            ),
    {
        self.begin(Request::ReadCoils { address, quantity })
    }

    /// Reads `quantity` discrete inputs from `address` on.
    pub fn read_discrete_inputs(&mut self, address: u16, quantity: u16) -> (started: Result<
        Transaction,
        ModbusError,
    >)
        ensures
            (final(self)@, started_view(started)) == old(self)@.begin(
                RequestView::ReadDiscreteInputs { address, quantity },
            ),
    {
        self.begin(Request::ReadDiscreteInputs { address, quantity })
    }

    /// Reads `quantity` holding registers from `address` on.
    pub fn read_holding_registers(&mut self, address: u16, quantity: u16) -> (started: Result<
        Transaction,
        ModbusError,
    >)
        ensures
            (final(self)@, started_view(started)) == old(self)@.begin(
                RequestView::ReadHoldingRegisters { address, quantity },
            ),
    {
        self.begin(Request::ReadHoldingRegisters { address, quantity })
    }

    /// Reads `quantity` input registers from `address` on.
    pub fn read_input_registers(&mut self, address: u16, quantity: u16) -> (started: Result<
        Transaction,
        ModbusError,
    >)
        ensures
            (final(self)@, started_view(started)) == old(self)@.begin(
                RequestView::ReadInputRegisters { address, quantity },
            ),
    {
        self.begin(Request::ReadInputRegisters { address, quantity })
    }

    /// Sets the coil at `address`.
    pub fn write_single_coil(&mut self, address: u16, coil: Coil) -> (started: Result<
        Transaction,
        ModbusError,
    >)
        ensures
            (final(self)@, started_view(started)) == old(self)@.begin(
                RequestView::WriteSingleCoil { address, coil },
            ),
    {
        self.begin(Request::WriteSingleCoil { address, coil })
    }

    /// Sets the register at `address`.
    pub fn write_single_register(&mut self, address: u16, value: u16) -> (started: Result<
        Transaction,
        ModbusError,
    >)
        ensures
            (final(self)@, started_view(started)) == old(self)@.begin(
                RequestView::WriteSingleRegister { address, value },
            ),
    {
        self.begin(Request::WriteSingleRegister { address, value })
    }

    /// Sets the coils from `address` on.
    pub fn write_multiple_coils(&mut self, address: u16, coils: &[Coil]) -> (started: Result<
        Transaction,
        ModbusError,
    >)
        ensures
            (final(self)@, started_view(started)) == old(self)@.begin(
                RequestView::WriteMultipleCoils { address, coils: coils@ },
            ),
    {
        self.begin(Request::WriteMultipleCoils { address, coils: slice_to_vec(coils) })
    }

    /// Sets the registers from `address` on.
    pub fn write_multiple_registers(&mut self, address: u16, values: &[u16]) -> (started: Result<
        Transaction,
        ModbusError,
    >)
        ensures
            (final(self)@, started_view(started)) == old(self)@.begin(
                RequestView::WriteMultipleRegisters { address, values: values@ },
            ),
    {
        self.begin(Request::WriteMultipleRegisters { address, values: slice_to_vec(values) })
    }
}

/// A request that covers no point, more points than its function allows,
/// or points past the end of the address space is refused with
/// `ValidationError`, and the client is left as it was.
pub proof fn lemma_invalid_request_refused(client: ClientView, request: RequestView)
    requires
        request.count() == 0 || request.count() > crate::pdu::quantity_limit(request.function())
            || request.address() + request.count() > 65536,
    ensures
        client.begin(request) == (
            client,
            Err::<TransactionView, ModbusError>(ModbusError::ValidationError),
        ),
{
}

/// A request within the protocol's limits is never refused: it starts a
/// transaction that is ready to send.
pub proof fn lemma_valid_request_starts(client: ClientView, request: RequestView)
    requires
        request.valid(),
    ensures
        client.begin(request).1 is Ok,
        client.begin(request).1.unwrap().phase == Phase::Sending,
        client.begin(request).1.unwrap().request == request,
        client.begin(request).1.unwrap().unit_id == client.unit_id,
{
}

/// A request for more coils than the protocol allows in one read is
/// refused, wherever it starts, and the client is left as it was: no
/// transaction comes to be, so nothing is sent.
pub proof fn lemma_oversized_read_refused(client: ClientView, address: u16, quantity: u16)
    requires
        quantity > 2000,
    ensures
        client.begin(RequestView::ReadCoils { address, quantity }) == (
            client,
            Err::<TransactionView, ModbusError>(ModbusError::ValidationError),
        ),
        client.begin(RequestView::ReadDiscreteInputs { address, quantity }) == (
            client,
            Err::<TransactionView, ModbusError>(ModbusError::ValidationError),
        ),
{
}

/// Transactions started one after the other over TCP carry different
/// identifiers, each the successor of the one before.
pub proof fn lemma_identifiers_advance(client: ClientView, first: RequestView, second: RequestView)
    requires
        client.framing == Framing::Tcp,
        first.valid(),
        second.valid(),
    ensures
        ({
            let (after, one) = client.begin(first);
            let (_, two) = after.begin(second);
            &&& one is Ok
            &&& two is Ok
            &&& two.unwrap().transaction_id == next_transaction_id(one.unwrap().transaction_id)
            &&& two.unwrap().transaction_id != one.unwrap().transaction_id
        }),
{
}

}
